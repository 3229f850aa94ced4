use ssh_session::error::SessionError;
use ssh_session::event::{LoopEvent, SshEvent};
use ssh_session::pty::PtyOptions;
use ssh_session::session::{Action, Event, Handshake, Mode, Outcome, Phase, Session};

fn connected() -> Session {
    Session::connect(Handshake::Answered { accepted: true }).unwrap()
}

fn looping_shell() -> Session {
    let mut session = connected();
    assert_eq!(session.run_shell(Some((80, 24))), Ok(Action::OpenChannel));
    let actions = session.replay(vec![
        Event::Completed,
        Event::Completed,
        Event::Completed,
        Event::Completed,
    ]);
    assert_eq!(actions.last(), Some(&Action::Wait));
    assert_eq!(session.phase(), Phase::Looping);
    session
}

fn looping_command(command: &str) -> Session {
    let mut session = connected();
    assert_eq!(session.call(command), Ok(Action::OpenChannel));
    let actions = session.replay(vec![Event::Completed, Event::Completed]);
    assert_eq!(actions, vec![Action::Exec(command.to_string()), Action::Wait]);
    assert_eq!(session.phase(), Phase::Looping);
    session
}

fn input(bytes: &[u8]) -> Event {
    Event::Loop(LoopEvent::LocalInput(bytes.to_vec()))
}

fn data(bytes: &[u8]) -> Event {
    Event::Loop(LoopEvent::Remote(SshEvent::Data(bytes.to_vec())))
}

fn exit(status: u32) -> Event {
    Event::Loop(LoopEvent::Remote(SshEvent::Exit(status)))
}

fn closed() -> Event {
    Event::Loop(LoopEvent::Remote(SshEvent::Closed))
}

#[test]
fn an_unreachable_host_is_a_connection_error() {
    assert_eq!(
        Session::connect(Handshake::Unreachable).unwrap_err(),
        SessionError::ConnectionError
    );
}

#[test]
fn a_rejected_credential_is_an_authentication_error() {
    assert_eq!(
        Session::connect(Handshake::Answered { accepted: false }).unwrap_err(),
        SessionError::AuthenticationError
    );
}

#[test]
fn an_accepted_credential_gives_a_connected_session() {
    let session = connected();
    assert_eq!(session.phase(), Phase::Connected);
    assert!(!session.is_raw());
    assert!(!session.is_finished());
    assert!(session.channel().is_none());
    assert_eq!(session.exit_status(), None);
    assert_eq!(session.error(), None);
    assert_eq!(session.close_error(), None);
}

#[test]
fn an_interactive_session_runs_from_the_channel_to_the_exit_code() {
    let mut session = connected();
    assert_eq!(session.run_shell(Some((120, 40))), Ok(Action::OpenChannel));
    assert_eq!(session.mode(), Mode::Interactive);
    assert_eq!(session.phase(), Phase::Opening);
    assert_eq!(
        session.step(Event::Completed),
        Some(Action::RequestPty(PtyOptions::new("xterm", 120, 40).unwrap()))
    );
    assert_eq!(session.phase(), Phase::RequestingPty);
    assert_eq!(session.step(Event::Completed), Some(Action::StartShell));
    assert_eq!(session.phase(), Phase::Starting);
    assert!(!session.is_raw());
    assert_eq!(session.step(Event::Completed), Some(Action::EnterRawMode));
    assert_eq!(session.phase(), Phase::EnteringRawMode);
    assert!(session.is_raw());
    assert_eq!(session.step(Event::Completed), Some(Action::Wait));
    assert_eq!(session.phase(), Phase::Looping);
    let channel = session.channel().unwrap();
    assert!(channel.pty_requested() && channel.is_started() && !channel.is_closed());

    assert_eq!(session.step(input(b"ls\n")), Some(Action::Send(b"ls\n".to_vec())));
    assert_eq!(session.step(data(b"file.txt\n")), Some(Action::Write(b"file.txt\n".to_vec())));
    assert_eq!(session.step(exit(0)), Some(Action::Wait));
    assert_eq!(session.phase(), Phase::Looping);
    assert_eq!(session.step(closed()), Some(Action::Disconnect));
    assert_eq!(session.phase(), Phase::Closing);
    assert!(session.is_raw());
    assert_eq!(session.step(Event::Completed), Some(Action::RestoreMode));
    assert_eq!(session.phase(), Phase::Restoring);
    assert_eq!(session.step(Event::Completed), Some(Action::Finish(Outcome::Success)));
    assert!(session.is_finished());
    assert!(!session.is_raw());
    assert!(session.channel().unwrap().is_closed());
    assert_eq!(session.exit_status(), Some(0));
    assert_eq!(session.error(), None);
    assert_eq!(session.outcome(), Outcome::Success);
    assert_eq!(session.outcome().exit_code(), 0);
}

#[test]
fn the_whole_interactive_script_replays_to_the_same_actions() {
    let mut session = connected();
    session.run_shell(None).unwrap();
    let actions = session.replay(vec![
        Event::Completed,
        Event::Completed,
        Event::Completed,
        Event::Completed,
        input(b"ls\n"),
        data(b"file.txt\n"),
        exit(0),
        closed(),
        Event::Completed,
        Event::Completed,
    ]);
    assert_eq!(
        actions,
        vec![
            Action::RequestPty(PtyOptions::new("xterm", 80, 24).unwrap()),
            Action::StartShell,
            Action::EnterRawMode,
            Action::Wait,
            Action::Send(b"ls\n".to_vec()),
            Action::Write(b"file.txt\n".to_vec()),
            Action::Wait,
            Action::Disconnect,
            Action::RestoreMode,
            Action::Finish(Outcome::Success),
        ]
    );
    assert!(session.is_finished());
    assert!(!session.is_raw());
}

#[test]
fn an_interactive_session_succeeds_whatever_the_shell_returned() {
    let mut session = looping_shell();
    let actions = session.replay(vec![exit(42), closed(), Event::Completed, Event::Completed]);
    assert_eq!(actions.last(), Some(&Action::Finish(Outcome::Success)));
    assert_eq!(session.exit_status(), Some(42));
    assert_eq!(session.outcome().exit_code(), 0);
}

#[test]
fn a_terminal_without_a_size_gets_80_by_24() {
    for probe in [None, Some((0, 0)), Some((0, 24)), Some((80, 0))] {
        let mut session = connected();
        session.run_shell(probe).unwrap();
        assert_eq!(
            session.step(Event::Completed),
            Some(Action::RequestPty(PtyOptions::new("xterm", 80, 24).unwrap()))
        );
    }
}

#[test]
fn a_refused_channel_ends_the_session_without_touching_the_terminal() {
    let mut session = connected();
    session.run_shell(None).unwrap();
    assert_eq!(session.step(Event::Failed), Some(Action::Disconnect));
    assert_eq!(session.error(), Some(SessionError::ChannelOpenError));
    assert_eq!(
        session.step(Event::Completed),
        Some(Action::Finish(Outcome::Failed(SessionError::ChannelOpenError)))
    );
    assert!(session.is_finished());
    assert!(session.channel().is_none());
    assert_eq!(session.outcome().exit_code(), 1);
}

#[test]
fn a_refused_pty_is_fatal_for_a_shell() {
    let mut session = connected();
    session.run_shell(None).unwrap();
    let actions = session.replay(vec![Event::Completed, Event::Failed, Event::Completed]);
    assert_eq!(
        actions,
        vec![
            Action::RequestPty(PtyOptions::new("xterm", 80, 24).unwrap()),
            Action::Disconnect,
            Action::Finish(Outcome::Failed(SessionError::PtyRequestError)),
        ]
    );
    assert!(!session.is_raw());
}

#[test]
fn a_refused_shell_is_a_shell_start_error() {
    let mut session = connected();
    session.run_shell(None).unwrap();
    let actions =
        session.replay(vec![Event::Completed, Event::Completed, Event::Failed, Event::Completed]);
    assert_eq!(actions[2], Action::Disconnect);
    assert_eq!(actions[3], Action::Finish(Outcome::Failed(SessionError::ShellStartError)));
}

#[test]
fn a_terminal_that_cannot_enter_raw_mode_is_still_restored() {
    let mut session = connected();
    session.run_shell(None).unwrap();
    let actions = session.replay(vec![
        Event::Completed,
        Event::Completed,
        Event::Completed,
        Event::Failed,
        Event::Completed,
        Event::Completed,
    ]);
    assert_eq!(
        &actions[2..],
        &[
            Action::EnterRawMode,
            Action::Disconnect,
            Action::RestoreMode,
            Action::Finish(Outcome::Failed(SessionError::TerminalModeError)),
        ]
    );
    assert!(!session.is_raw());
}

#[test]
fn raw_mode_is_restored_after_local_end_of_input() {
    let mut session = looping_shell();
    assert!(session.is_raw());
    let actions = session.replay(vec![input(b""), Event::Completed, Event::Completed]);
    assert_eq!(
        actions,
        vec![Action::Disconnect, Action::RestoreMode, Action::Finish(Outcome::Success)]
    );
    assert!(!session.is_raw());
}

#[test]
fn raw_mode_is_restored_after_every_failure_in_the_loop() {
    for (event, error) in [
        (LoopEvent::LocalReadError, SessionError::LocalReadError),
        (LoopEvent::SendFailed, SessionError::ChannelWriteError),
        (LoopEvent::WriteFailed, SessionError::LocalWriteError),
    ] {
        let mut session = looping_shell();
        let actions = session.replay(vec![Event::Loop(event), Event::Failed, Event::Completed]);
        assert_eq!(
            actions,
            vec![Action::Disconnect, Action::RestoreMode, Action::Finish(Outcome::Failed(error))]
        );
        assert!(!session.is_raw());
        assert!(session.is_finished());
        assert_eq!(session.error(), Some(error));
    }
}

#[test]
fn a_terminal_that_cannot_be_restored_fails_a_clean_session() {
    let mut session = looping_shell();
    let actions = session.replay(vec![closed(), Event::Completed, Event::Failed]);
    assert_eq!(
        actions.last(),
        Some(&Action::Finish(Outcome::Failed(SessionError::TerminalModeError)))
    );
    assert!(!session.is_raw());
}

#[test]
fn the_first_failure_is_the_one_reported() {
    let mut session = looping_shell();
    let actions =
        session.replay(vec![Event::Loop(LoopEvent::LocalReadError), Event::Failed, Event::Failed]);
    assert_eq!(
        actions.last(),
        Some(&Action::Finish(Outcome::Failed(SessionError::LocalReadError)))
    );
    assert_eq!(session.close_error(), Some(SessionError::CloseError));
}

#[test]
fn a_failed_disconnect_is_logged_and_not_escalated() {
    let mut session = looping_shell();
    let actions = session.replay(vec![closed(), Event::Failed, Event::Completed]);
    assert_eq!(
        actions,
        vec![Action::Disconnect, Action::RestoreMode, Action::Finish(Outcome::Success)]
    );
    assert_eq!(session.close_error(), Some(SessionError::CloseError));
    assert_eq!(session.error(), None);
}

#[test]
fn closing_twice_asks_for_one_disconnect() {
    let mut session = looping_shell();
    assert_eq!(session.close(), Some(Action::Disconnect));
    assert_eq!(session.phase(), Phase::Closing);
    assert_eq!(session.close(), None);
    assert_eq!(session.phase(), Phase::Closing);
    assert_eq!(session.error(), None);
    assert_eq!(session.step(Event::Completed), Some(Action::RestoreMode));
    assert_eq!(session.close(), None);
    assert_eq!(session.step(Event::Completed), Some(Action::Finish(Outcome::Success)));
    assert_eq!(session.close(), None);
    assert!(session.is_finished());
}

#[test]
fn closing_after_the_remote_side_closed_is_a_no_op() {
    let mut session = looping_shell();
    assert_eq!(session.step(closed()), Some(Action::Disconnect));
    assert!(session.channel().unwrap().is_closed());
    assert_eq!(session.close(), None);
    assert_eq!(session.close(), None);
    assert_eq!(session.error(), None);
    assert_eq!(session.phase(), Phase::Closing);
}

#[test]
fn a_session_can_be_closed_before_it_set_out() {
    let mut session = connected();
    assert_eq!(session.close(), Some(Action::Disconnect));
    assert_eq!(session.close(), None);
    assert_eq!(session.step(Event::Completed), Some(Action::Finish(Outcome::Success)));
    assert!(session.is_finished());
}

#[test]
fn closing_while_raw_mode_is_being_entered_restores_the_terminal() {
    let mut session = connected();
    session.run_shell(None).unwrap();
    session.replay(vec![Event::Completed, Event::Completed, Event::Completed]);
    assert_eq!(session.phase(), Phase::EnteringRawMode);
    assert_eq!(session.close(), Some(Action::Disconnect));
    assert_eq!(session.step(Event::Completed), Some(Action::RestoreMode));
    assert_eq!(session.step(Event::Completed), Some(Action::Finish(Outcome::Success)));
    assert!(!session.is_raw());
}

#[test]
fn a_session_sets_out_only_once() {
    let mut session = connected();
    assert_eq!(session.run_shell(None), Ok(Action::OpenChannel));
    assert_eq!(session.run_shell(None), Err(SessionError::ShellStartError));
    assert_eq!(session.call("ls"), Err(SessionError::ExecError));
    assert_eq!(session.phase(), Phase::Opening);
    assert_eq!(session.mode(), Mode::Interactive);
    let mut batch = connected();
    assert_eq!(batch.call("ls"), Ok(Action::OpenChannel));
    assert_eq!(batch.call("ls"), Err(SessionError::ExecError));
    assert_eq!(batch.run_shell(None), Err(SessionError::ShellStartError));
    assert_eq!(batch.mode(), Mode::Batch);
}

#[test]
fn a_command_runs_without_a_pty_and_returns_its_exit_status() {
    let mut session = looping_command("echo 'hello world'");
    assert!(!session.is_raw());
    let channel = session.channel().unwrap();
    assert!(!channel.pty_requested() && channel.is_started());
    let actions = session.replay(vec![
        data(b"hello world\n"),
        Event::Loop(LoopEvent::Remote(SshEvent::ExtendedData(b"warning\n".to_vec(), 1))),
        exit(3),
        data(b"late\n"),
        closed(),
        Event::Completed,
    ]);
    assert_eq!(
        actions,
        vec![
            Action::Write(b"hello world\n".to_vec()),
            Action::Write(b"warning\n".to_vec()),
            Action::Wait,
            Action::Write(b"late\n".to_vec()),
            Action::Disconnect,
            Action::Finish(Outcome::Exited(3)),
        ]
    );
    assert_eq!(session.outcome().exit_code(), 3);
    assert!(session.is_finished());
}

#[test]
fn a_command_that_reports_no_exit_status_did_not_exit_cleanly() {
    let mut session = looping_command("true");
    let actions = session.replay(vec![closed(), Event::Completed]);
    assert_eq!(
        actions,
        vec![
            Action::Disconnect,
            Action::Finish(Outcome::Failed(SessionError::MissingExitStatus)),
        ]
    );
    assert_eq!(
        SessionError::MissingExitStatus.message(),
        "program did not exit cleanly"
    );
}

#[test]
fn a_refused_command_is_an_exec_error() {
    let mut session = connected();
    session.call("false").unwrap();
    let actions = session.replay(vec![Event::Completed, Event::Failed, Event::Completed]);
    assert_eq!(
        actions,
        vec![
            Action::Exec("false".to_string()),
            Action::Disconnect,
            Action::Finish(Outcome::Failed(SessionError::ExecError)),
        ]
    );
}

#[test]
fn a_batch_session_takes_no_local_input() {
    let mut session = looping_command("cat");
    assert_eq!(session.step(input(b"typed")), None);
    assert_eq!(session.step(input(b"")), None);
    assert_eq!(session.step(Event::Loop(LoopEvent::LocalReadError)), None);
    assert_eq!(session.step(Event::Loop(LoopEvent::SendFailed)), None);
    assert_eq!(session.phase(), Phase::Looping);
    assert_eq!(session.step(Event::Loop(LoopEvent::WriteFailed)), Some(Action::Disconnect));
    assert_eq!(session.error(), Some(SessionError::LocalWriteError));
}

#[test]
fn events_that_do_not_belong_to_the_phase_are_not_taken() {
    let mut session = connected();
    assert_eq!(session.step(Event::Completed), None);
    assert_eq!(session.step(Event::Failed), None);
    assert_eq!(session.step(input(b"x")), None);
    assert_eq!(session.phase(), Phase::Connected);
    session.run_shell(None).unwrap();
    assert_eq!(session.step(input(b"x")), None);
    assert_eq!(session.step(closed()), None);
    assert_eq!(session.phase(), Phase::Opening);
    let mut looping = looping_shell();
    assert_eq!(looping.step(Event::Completed), None);
    assert_eq!(looping.step(Event::Failed), None);
    assert_eq!(looping.phase(), Phase::Looping);
    looping.step(closed());
    assert_eq!(looping.step(input(b"x")), None);
    assert_eq!(looping.step(data(b"x")), None);
    assert_eq!(looping.phase(), Phase::Closing);
    looping.replay(vec![Event::Completed, Event::Completed]);
    assert!(looping.is_finished());
    assert_eq!(looping.step(Event::Completed), None);
    assert_eq!(looping.step(input(b"x")), None);
    assert!(looping.replay(vec![Event::Failed, Event::Close, closed()]).is_empty());
}

#[test]
fn input_typed_while_the_loop_drains_is_still_sent() {
    let mut session = looping_shell();
    let actions = session.replay(vec![exit(0), input(b"more\n"), data(b"bye\n")]);
    assert_eq!(
        actions,
        vec![Action::Wait, Action::Send(b"more\n".to_vec()), Action::Write(b"bye\n".to_vec())]
    );
    assert_eq!(session.phase(), Phase::Looping);
}

#[test]
fn a_session_passes_input_on_in_order_whatever_the_chunks() {
    let payload: Vec<u8> = (0..2048u32).map(|i| (i * 7 % 256) as u8).collect();
    let mut session = looping_shell();
    let mut events = Vec::new();
    let mut at = 0;
    let mut size = 1;
    while at < payload.len() {
        let end = (at + size).min(payload.len());
        events.push(input(&payload[at..end]));
        events.push(data(&payload[at..end]));
        at = end;
        size = size * 2 % 1000 + 1;
    }
    let actions = session.replay(events);
    let mut sent = Vec::new();
    let mut written = Vec::new();
    for action in actions {
        match action {
            Action::Send(bytes) => sent.extend(bytes),
            Action::Write(bytes) => written.extend(bytes),
            other => panic!("unexpected action {:?}", other),
        }
    }
    assert_eq!(sent, payload);
    assert_eq!(written, payload);
}
