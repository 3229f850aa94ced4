use ssh_session::error::SessionError;
use ssh_session::event::{LoopAction, LoopEvent, SshEvent};
use ssh_session::event_loop::{EventLoop, LoopState, INPUT_BUFFER_SIZE};

fn sent(actions: &[LoopAction]) -> Vec<u8> {
    let mut bytes = Vec::new();
    for action in actions {
        if let LoopAction::Send(chunk) = action {
            bytes.extend_from_slice(chunk);
        }
    }
    bytes
}

fn written(actions: &[LoopAction]) -> Vec<u8> {
    let mut bytes = Vec::new();
    for action in actions {
        if let LoopAction::Write(chunk) = action {
            bytes.extend_from_slice(chunk);
        }
    }
    bytes
}

#[test]
fn a_fresh_loop_is_running() {
    let event_loop = EventLoop::new();
    assert_eq!(event_loop.state(), LoopState::Running);
    assert_eq!(event_loop.exit_status(), None);
    assert_eq!(event_loop.error(), None);
    assert!(!event_loop.is_terminated());
}

#[test]
fn the_input_buffer_holds_1024_bytes() {
    assert_eq!(INPUT_BUFFER_SIZE, 1024);
}

#[test]
fn local_input_is_sent_verbatim() {
    let mut event_loop = EventLoop::new();
    let action = event_loop.step(LoopEvent::LocalInput(b"ls\n".to_vec()));
    assert_eq!(action, LoopAction::Send(b"ls\n".to_vec()));
    assert_eq!(event_loop.state(), LoopState::Running);
}

#[test]
fn input_in_chunks_of_any_size_round_trips() {
    let payload: Vec<u8> = (0..3000u32).map(|i| (i % 251) as u8).collect();
    for sizes in [vec![1usize], vec![7, 1, 1024, 3], vec![1024], vec![5000], vec![2, 3, 5, 11, 1000]] {
        let mut event_loop = EventLoop::new();
        let mut events = Vec::new();
        let mut at = 0;
        let mut turn = 0;
        while at < payload.len() {
            let size = sizes[turn % sizes.len()].min(payload.len() - at);
            events.push(LoopEvent::LocalInput(payload[at..at + size].to_vec()));
            at += size;
            turn += 1;
        }
        let count = events.len();
        let actions = event_loop.run(events);
        assert_eq!(actions.len(), count);
        assert_eq!(sent(&actions), payload);
        assert_eq!(written(&actions), Vec::<u8>::new());
        assert_eq!(event_loop.state(), LoopState::Running);
    }
}

#[test]
fn remote_output_reaches_local_output_in_order() {
    let mut event_loop = EventLoop::new();
    let actions = event_loop.run(vec![
        LoopEvent::Remote(SshEvent::Data(b"out-1 ".to_vec())),
        LoopEvent::Remote(SshEvent::ExtendedData(b"err-1 ".to_vec(), 1)),
        LoopEvent::Remote(SshEvent::Data(Vec::new())),
        LoopEvent::Remote(SshEvent::Data(b"out-2".to_vec())),
    ]);
    assert_eq!(
        actions,
        vec![
            LoopAction::Write(b"out-1 ".to_vec()),
            LoopAction::Write(b"err-1 ".to_vec()),
            LoopAction::Write(Vec::new()),
            LoopAction::Write(b"out-2".to_vec()),
        ]
    );
    assert_eq!(written(&actions), b"out-1 err-1 out-2".to_vec());
    assert_eq!(sent(&actions), Vec::<u8>::new());
}

#[test]
fn both_directions_interleave_without_loss() {
    let mut event_loop = EventLoop::new();
    let actions = event_loop.run(vec![
        LoopEvent::LocalInput(b"a".to_vec()),
        LoopEvent::Remote(SshEvent::Data(b"A".to_vec())),
        LoopEvent::LocalInput(b"bc".to_vec()),
        LoopEvent::Remote(SshEvent::Exit(0)),
        LoopEvent::Remote(SshEvent::ExtendedData(b"BC".to_vec(), 1)),
        LoopEvent::LocalInput(b"d".to_vec()),
    ]);
    assert_eq!(sent(&actions), b"abcd".to_vec());
    assert_eq!(written(&actions), b"ABC".to_vec());
    assert_eq!(event_loop.state(), LoopState::Draining);
}

#[test]
fn exit_does_not_end_the_loop_and_trailing_data_is_delivered() {
    let mut event_loop = EventLoop::new();
    let first = event_loop.step(LoopEvent::Remote(SshEvent::Exit(0)));
    assert_eq!(first, LoopAction::Wait);
    assert_eq!(event_loop.state(), LoopState::Draining);
    assert_eq!(event_loop.exit_status(), Some(0));
    assert!(!event_loop.is_terminated());
    let second = event_loop.step(LoopEvent::Remote(SshEvent::Data(b"trailing".to_vec())));
    assert_eq!(second, LoopAction::Write(b"trailing".to_vec()));
    assert_eq!(event_loop.state(), LoopState::Draining);
    let third = event_loop.step(LoopEvent::Remote(SshEvent::Closed));
    assert_eq!(third, LoopAction::Stop);
    assert_eq!(event_loop.state(), LoopState::Terminated);
    assert_eq!(event_loop.exit_status(), Some(0));
    assert_eq!(event_loop.error(), None);
}

#[test]
fn a_scripted_exit_data_closed_sequence_writes_the_trailing_bytes() {
    let mut event_loop = EventLoop::new();
    let actions = event_loop.run(vec![
        LoopEvent::Remote(SshEvent::Exit(0)),
        LoopEvent::Remote(SshEvent::Data(b"trailing".to_vec())),
        LoopEvent::Remote(SshEvent::Closed),
    ]);
    assert_eq!(
        actions,
        vec![LoopAction::Wait, LoopAction::Write(b"trailing".to_vec()), LoopAction::Stop]
    );
    assert!(event_loop.is_terminated());
}

#[test]
fn local_end_of_input_ends_a_draining_loop() {
    let mut event_loop = EventLoop::new();
    event_loop.step(LoopEvent::Remote(SshEvent::Exit(7)));
    let action = event_loop.step(LoopEvent::LocalInput(Vec::new()));
    assert_eq!(action, LoopAction::Stop);
    assert!(event_loop.is_terminated());
    assert_eq!(event_loop.exit_status(), Some(7));
    assert_eq!(event_loop.error(), None);
}

#[test]
fn a_later_exit_status_replaces_an_earlier_one() {
    let mut event_loop = EventLoop::new();
    event_loop.step(LoopEvent::Remote(SshEvent::Exit(1)));
    event_loop.step(LoopEvent::Remote(SshEvent::Exit(2)));
    assert_eq!(event_loop.exit_status(), Some(2));
    assert_eq!(event_loop.state(), LoopState::Draining);
}

#[test]
fn reading_no_bytes_is_the_end_of_input() {
    let mut event_loop = EventLoop::new();
    let action = event_loop.step(LoopEvent::LocalInput(Vec::new()));
    assert_eq!(action, LoopAction::Stop);
    assert_eq!(event_loop.state(), LoopState::Terminated);
    assert_eq!(event_loop.error(), None);
}

#[test]
fn a_failed_read_ends_the_loop_with_local_read_error() {
    let mut event_loop = EventLoop::new();
    let action = event_loop.step(LoopEvent::LocalReadError);
    assert_eq!(action, LoopAction::Stop);
    assert!(event_loop.is_terminated());
    assert_eq!(event_loop.error(), Some(SessionError::LocalReadError));
}

#[test]
fn a_failed_send_ends_the_loop_with_channel_write_error() {
    let mut event_loop = EventLoop::new();
    assert_eq!(
        event_loop.step(LoopEvent::LocalInput(b"x".to_vec())),
        LoopAction::Send(b"x".to_vec())
    );
    assert_eq!(event_loop.step(LoopEvent::SendFailed), LoopAction::Stop);
    assert!(event_loop.is_terminated());
    assert_eq!(event_loop.error(), Some(SessionError::ChannelWriteError));
}

#[test]
fn a_failed_write_ends_the_loop_with_local_write_error() {
    let mut event_loop = EventLoop::new();
    event_loop.step(LoopEvent::Remote(SshEvent::Data(b"x".to_vec())));
    assert_eq!(event_loop.step(LoopEvent::WriteFailed), LoopAction::Stop);
    assert_eq!(event_loop.error(), Some(SessionError::LocalWriteError));
}

#[test]
fn the_channel_closing_ends_the_loop_without_an_error() {
    let mut event_loop = EventLoop::new();
    assert_eq!(event_loop.step(LoopEvent::Remote(SshEvent::Closed)), LoopAction::Stop);
    assert!(event_loop.is_terminated());
    assert_eq!(event_loop.error(), None);
    assert_eq!(event_loop.exit_status(), None);
}

#[test]
fn a_loop_that_is_over_passes_nothing_on() {
    let mut event_loop = EventLoop::new();
    event_loop.step(LoopEvent::LocalReadError);
    let actions = event_loop.run(vec![
        LoopEvent::LocalInput(b"late".to_vec()),
        LoopEvent::Remote(SshEvent::Data(b"late".to_vec())),
        LoopEvent::Remote(SshEvent::Exit(9)),
        LoopEvent::SendFailed,
        LoopEvent::Remote(SshEvent::Closed),
    ]);
    assert_eq!(actions, vec![LoopAction::Stop; 5]);
    assert_eq!(event_loop.state(), LoopState::Terminated);
    assert_eq!(event_loop.exit_status(), None);
    assert_eq!(event_loop.error(), Some(SessionError::LocalReadError));
}

#[test]
fn input_after_the_end_of_input_is_dropped() {
    let mut event_loop = EventLoop::new();
    let actions = event_loop.run(vec![
        LoopEvent::LocalInput(b"kept".to_vec()),
        LoopEvent::LocalInput(Vec::new()),
        LoopEvent::LocalInput(b"dropped".to_vec()),
    ]);
    assert_eq!(sent(&actions), b"kept".to_vec());
    assert_eq!(actions[1], LoopAction::Stop);
    assert_eq!(actions[2], LoopAction::Stop);
}

#[test]
fn running_over_no_events_changes_nothing() {
    let mut event_loop = EventLoop::new();
    let actions = event_loop.run(Vec::new());
    assert!(actions.is_empty());
    assert_eq!(event_loop.state(), LoopState::Running);
}

#[test]
fn a_read_becomes_the_bytes_at_the_front_of_the_buffer() {
    let mut buffer = [0u8; INPUT_BUFFER_SIZE];
    buffer[..3].copy_from_slice(b"ls\n");
    assert_eq!(LoopEvent::from_read(&buffer, Some(3)), LoopEvent::LocalInput(b"ls\n".to_vec()));
    assert_eq!(LoopEvent::from_read(&buffer, Some(0)), LoopEvent::LocalInput(Vec::new()));
    assert_eq!(LoopEvent::from_read(&buffer, None), LoopEvent::LocalReadError);
    assert_eq!(
        LoopEvent::from_read(&buffer, Some(INPUT_BUFFER_SIZE)),
        LoopEvent::LocalInput(buffer.to_vec())
    );
}

#[test]
fn a_read_count_beyond_the_buffer_stands_for_the_whole_buffer() {
    let buffer = [1u8, 2, 3];
    assert_eq!(LoopEvent::from_read(&buffer, Some(4)), LoopEvent::LocalInput(vec![1, 2, 3]));
    assert_eq!(LoopEvent::from_read(&buffer, Some(usize::MAX)), LoopEvent::LocalInput(vec![1, 2, 3]));
    assert_eq!(LoopEvent::from_read(&[], Some(0)), LoopEvent::LocalInput(Vec::new()));
}

#[test]
fn local_and_remote_events_are_told_apart() {
    assert!(LoopEvent::LocalInput(vec![1]).is_local());
    assert!(LoopEvent::LocalReadError.is_local());
    assert!(LoopEvent::SendFailed.is_local());
    assert!(!LoopEvent::WriteFailed.is_local());
    assert!(!LoopEvent::Remote(SshEvent::Closed).is_local());
    assert!(LoopEvent::Remote(SshEvent::Closed).is_remote_close());
    assert!(!LoopEvent::Remote(SshEvent::Exit(0)).is_remote_close());
    assert!(!LoopEvent::LocalInput(Vec::new()).is_remote_close());
}
