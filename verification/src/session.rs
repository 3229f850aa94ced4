//! One client session from the authenticated transport to the exit code:
//! channel setup, the event loop, and the teardown that gives the terminal
//! back.
//!
//! The session performs nothing itself. It hands the driver one [`Action`]
//! at a time, and the driver reports how that went as an [`Event`].

use vstd::prelude::*;
use vstd::string::StringExecFns;
use crate::channel::{Channel, ChannelModel};
use crate::error::SessionError;
use crate::event::{LoopAction, LoopActionView, LoopEvent, LoopEventView, SshEventView};
use crate::event_loop::{EventLoop, LoopModel};
use crate::pty::{PtyOptions, PtyOptionsView};
use crate::terminal::Terminal;

verus! {

/// What the session is for.
#[derive(Clone, Copy, Debug, PartialEq, Eq, Structural)]
pub enum Mode {
    /// A shell on a pseudo-terminal, bridged to the local terminal in raw
    /// mode.
    Interactive,
    /// One command without a pseudo-terminal, whose output is passed on and
    /// whose exit status is the result.
    Batch,
}

/// How far the session has come.
#[derive(Clone, Copy, Debug, PartialEq, Eq, Structural)]
pub enum Phase {
    /// Authenticated, nothing asked yet.
    Connected,
    /// Waiting for the transport to open the channel.
    Opening,
    /// Waiting for the answer to the pseudo-terminal request.
    RequestingPty,
    /// Waiting for the answer to the shell or command request.
    Starting,
    /// Waiting for the local terminal to enter raw mode.
    EnteringRawMode,
    /// The event loop runs.
    Looping,
    /// Waiting for the disconnect notice to go out.
    Closing,
    /// Waiting for the local terminal to be restored.
    Restoring,
    /// Nothing is left to do.
    Finished,
}

/// How a session ended.
#[derive(Clone, Copy, Debug, PartialEq, Eq, Structural)]
pub enum Outcome {
    /// An interactive session that ended without a failure.
    Success,
    /// A command that ran and reported this exit status.
    Exited(u32),
    /// A session that a failure ended.
    Failed(SessionError),
}

impl Outcome {
    /// The exit code of the process: zero for a clean interactive session,
    /// the remote exit status for a command, and one for a failure.
    pub open spec fn code(self) -> u32 {
        match self {
            Outcome::Success => 0,
            Outcome::Exited(status) => status,
            Outcome::Failed(_) => 1,
        }
    }

    /// Computes [`Outcome::code`].
    pub fn exit_code(&self) -> (code: u32)
        ensures
            code == self.code(),
    {
        match self {
            Outcome::Success => 0,
            Outcome::Exited(status) => *status,
            Outcome::Failed(_) => 1,
        }
    }
}

/// How the attempt to connect and authenticate went.
#[derive(Clone, Copy, Debug, PartialEq, Eq, Structural)]
pub enum Handshake {
    /// The transport could not be established, or broke down before the
    /// remote side answered the credential.
    Unreachable,
    /// The remote side answered the credential.
    Answered { accepted: bool },
}

/// What the driver reports to the session.
#[derive(Clone, Debug, PartialEq, Eq)]
pub enum Event {
    /// What the session asked for last was done.
    Completed,
    /// What the session asked for last could not be done.
    Failed,
    /// Something happened while the driver waited on behalf of the event
    /// loop.
    Loop(LoopEvent),
    /// The user of the session wants it closed.
    Close,
}

/// The mathematical value of an [`Event`].
pub enum EventView {
    Completed,
    Failed,
    Loop(LoopEventView),
    Close,
}

impl View for Event {
    type V = EventView;

    open spec fn view(&self) -> EventView {
        match self {
            Event::Completed => EventView::Completed,
            Event::Failed => EventView::Failed,
            Event::Loop(event) => EventView::Loop(event@),
            Event::Close => EventView::Close,
        }
    }
}

/// What the session asks the driver to do. After each action but `Finish`
/// the driver reports one event.
#[derive(Clone, Debug, PartialEq, Eq)]
pub enum Action {
    /// Open a session channel on the transport.
    OpenChannel,
    /// Request a pseudo-terminal with these options and no special modes.
    RequestPty(PtyOptions),
    /// Request an interactive shell.
    StartShell,
    /// Request the execution of this command line.
    Exec(String),
    /// Switch the local terminal to raw mode.
    EnterRawMode,
    /// Wait for local input or a message of the channel, whichever comes
    /// first; in a batch session for a message of the channel.
    Wait,
    /// Write these bytes to the channel, then wait as for `Wait`.
    Send(Vec<u8>),
    /// Write these bytes to local output and flush, then wait as for `Wait`.
    Write(Vec<u8>),
    /// Send the disconnect notice to the transport.
    Disconnect,
    /// Restore the mode of the local terminal.
    RestoreMode,
    /// Stop: the session ended in this way.
    Finish(Outcome),
}

/// The mathematical value of an [`Action`].
pub enum ActionView {
    OpenChannel,
    RequestPty(PtyOptionsView),
    StartShell,
    Exec(Seq<char>),
    EnterRawMode,
    Wait,
    Send(Seq<u8>),
    Write(Seq<u8>),
    Disconnect,
    RestoreMode,
    Finish(Outcome),
}

impl View for Action {
    type V = ActionView;

    open spec fn view(&self) -> ActionView {
        match self {
            Action::OpenChannel => ActionView::OpenChannel,
            Action::RequestPty(options) => ActionView::RequestPty(options@),
            Action::StartShell => ActionView::StartShell,
            Action::Exec(command) => ActionView::Exec(command@),
            Action::EnterRawMode => ActionView::EnterRawMode,
            Action::Wait => ActionView::Wait,
            Action::Send(bytes) => ActionView::Send(bytes@),
            Action::Write(bytes) => ActionView::Write(bytes@),
            Action::Disconnect => ActionView::Disconnect,
            Action::RestoreMode => ActionView::RestoreMode,
            Action::Finish(outcome) => ActionView::Finish(*outcome),
        }
    }
}

impl ActionView {
    /// The action by which the session passes on what the event loop
    /// decided. The loop does not leave by itself: the session disconnects.
    pub open spec fn of_loop(action: LoopActionView) -> ActionView {
        match action {
            LoopActionView::Send(bytes) => ActionView::Send(bytes),
            LoopActionView::Write(bytes) => ActionView::Write(bytes),
            LoopActionView::Wait => ActionView::Wait,
            LoopActionView::Stop => ActionView::Disconnect,
        }
    }
}

/// The mathematical value of an optional action.
pub open spec fn answer_view(action: Option<Action>) -> Option<ActionView> {
    match action {
        Some(action) => Some(action@),
        None => None,
    }
}

/// The mathematical value of a [`Session`].
pub struct SessionView {
    pub mode: Mode,
    pub phase: Phase,
    /// The channel, once the transport has opened it.
    pub channel: Option<ChannelModel>,
    /// Whether the raw-mode guard of the local terminal is held.
    pub raw: bool,
    pub event_loop: LoopModel,
    /// The options of the pseudo-terminal request of an interactive session.
    pub pty: PtyOptionsView,
    /// The command line of a batch session.
    pub command: Seq<char>,
    /// The failure that ended the session.
    pub error: Option<SessionError>,
    /// Whether the disconnect notice could not be delivered.
    pub close_failed: bool,
}

impl SessionView {
    /// A session on a transport that was just authenticated.
    pub open spec fn connected() -> SessionView {
        SessionView {
            mode: Mode::Interactive,
            phase: Phase::Connected,
            channel: None,
            raw: false,
            event_loop: LoopModel::start(),
            pty: PtyOptionsView::for_terminal(None),
            command: Seq::empty(),
            error: None,
            close_failed: false,
        }
    }

    /// The session as it sets out to run a shell on a local terminal of
    /// which a size query returned `probe`.
    pub open spec fn shell(self, probe: Option<(u16, u16)>) -> SessionView {
        SessionView {
            mode: Mode::Interactive,
            phase: Phase::Opening,
            pty: PtyOptionsView::for_terminal(probe),
            ..self
        }
    }

    /// The session as it sets out to run `command`.
    pub open spec fn batch(self, command: Seq<char>) -> SessionView {
        SessionView { mode: Mode::Batch, phase: Phase::Opening, command, ..self }
    }

    /// Nothing was asked of the channel and the terminal yet.
    pub open spec fn untouched(self) -> bool {
        &&& !self.raw
        &&& self.event_loop == LoopModel::start()
        &&& self.error is None
        &&& !self.close_failed
    }

    /// What holds of every session: each phase has asked of the channel
    /// what came before it and nothing else, the terminal is raw from the
    /// request to enter raw mode until the request to restore it, and the
    /// event loop is over when its phase is.
    pub open spec fn wf(self) -> bool {
        &&& self.event_loop.wf()
        &&& self.pty.wf()
        &&& match self.phase {
            Phase::Connected => self.untouched() && self.channel is None,
            Phase::Opening => self.untouched() && self.channel is None,
            Phase::RequestingPty => {
                &&& self.untouched()
                &&& self.mode is Interactive
                &&& self.channel == Some(ChannelModel::opened())
            },
            Phase::Starting => {
                &&& self.untouched()
                &&& self.channel matches Some(channel)
                &&& channel.may_start()
                &&& channel.pty_requested == (self.mode is Interactive)
            },
            Phase::EnteringRawMode => {
                &&& self.raw
                &&& self.mode is Interactive
                &&& self.event_loop == LoopModel::start()
                &&& self.error is None
                &&& !self.close_failed
                &&& self.channel matches Some(channel)
                &&& channel.may_send()
                &&& channel.pty_requested
            },
            Phase::Looping => {
                &&& self.raw == (self.mode is Interactive)
                &&& !self.event_loop.terminated()
                &&& self.error is None
                &&& !self.close_failed
                &&& self.channel matches Some(channel)
                &&& channel.may_send()
                &&& channel.pty_requested == (self.mode is Interactive)
            },
            Phase::Closing => !self.close_failed,
            Phase::Restoring => !self.raw,
            Phase::Finished => !self.raw,
        }
    }

    /// How the session ends if it ends now: with its failure if it has one;
    /// else an interactive session with success, whatever the shell's exit
    /// status, and a command with its exit status, which it must have.
    pub open spec fn outcome(self) -> Outcome {
        match self.error {
            Some(error) => Outcome::Failed(error),
            None => match self.mode {
                Mode::Interactive => Outcome::Success,
                Mode::Batch => match self.event_loop.exit_status {
                    Some(status) => Outcome::Exited(status),
                    None => Outcome::Failed(SessionError::MissingExitStatus),
                },
            },
        }
    }

    /// The session begins its teardown because of `error`.
    pub open spec fn failing(self, error: SessionError) -> SessionView {
        SessionView { phase: Phase::Closing, error: Some(error), ..self }
    }

    /// The session begins its teardown because it was asked to.
    pub open spec fn closing(self) -> SessionView {
        SessionView { phase: Phase::Closing, ..self }
    }

    /// The teardown after the disconnect notice: the terminal is restored if
    /// the raw-mode guard is held, and the session finishes if not.
    pub open spec fn disconnected(self, delivered: bool) -> SessionView {
        SessionView {
            phase: if self.raw {
                Phase::Restoring
            } else {
                Phase::Finished
            },
            raw: false,
            channel: match self.channel {
                Some(channel) => Some(channel.with_close()),
                None => None,
            },
            close_failed: !delivered,
            ..self
        }
    }

    /// The end of the teardown, after the terminal was restored or could
    /// not be. That failure counts if the session had none before.
    pub open spec fn restored(self, done: bool) -> SessionView {
        SessionView {
            phase: Phase::Finished,
            error: if !done && self.error is None {
                Some(SessionError::TerminalModeError)
            } else {
                self.error
            },
            ..self
        }
    }

    /// The session after the event loop took `event`.
    pub open spec fn looped(self, event: LoopEventView) -> SessionView {
        let after = self.event_loop.next(event);
        if after.terminated() {
            SessionView {
                phase: Phase::Closing,
                event_loop: after,
                error: after.error,
                channel: match self.channel {
                    Some(channel) => if event == LoopEventView::Remote(SshEventView::Closed) {
                        Some(channel.with_close())
                    } else {
                        Some(channel)
                    },
                    None => None,
                },
                ..self
            }
        } else {
            SessionView { event_loop: after, ..self }
        }
    }

    /// Whether the session takes `event` in its phase. A request to close
    /// is taken until the teardown has begun; an answer is taken while a
    /// request is out; an event of the loop is taken while the loop runs,
    /// and a batch session has no local input.
    pub open spec fn accepts(self, event: EventView) -> bool {
        match self.phase {
            Phase::Connected => event is Close,
            Phase::Opening | Phase::RequestingPty | Phase::Starting | Phase::EnteringRawMode => {
                event is Completed || event is Failed || event is Close
            },
            Phase::Looping => match event {
                EventView::Loop(event) => self.mode is Interactive || !event.local(),
                EventView::Close => true,
                _ => false,
            },
            Phase::Closing | Phase::Restoring => event is Completed || event is Failed,
            Phase::Finished => false,
        }
    }

    /// The session after `event`. An event that the session does not take
    /// leaves it as it is.
    pub open spec fn next(self, event: EventView) -> SessionView {
        if !self.accepts(event) {
            self
        } else if event is Close {
            self.closing()
        } else {
            match self.phase {
                Phase::Opening => if event is Completed {
                    SessionView {
                        channel: Some(ChannelModel::opened()),
                        phase: if self.mode is Interactive {
                            Phase::RequestingPty
                        } else {
                            Phase::Starting
                        },
                        ..self
                    }
                } else {
                    self.failing(SessionError::ChannelOpenError)
                },
                Phase::RequestingPty => if event is Completed {
                    SessionView {
                        channel: Some(ChannelModel::opened().with_pty()),
                        phase: Phase::Starting,
                        ..self
                    }
                } else {
                    self.failing(SessionError::PtyRequestError)
                },
                Phase::Starting => if event is Completed {
                    SessionView {
                        channel: Some(self.channel->Some_0.with_start()),
                        raw: self.mode is Interactive,
                        phase: if self.mode is Interactive {
                            Phase::EnteringRawMode
                        } else {
                            Phase::Looping
                        },
                        ..self
                    }
                } else if self.mode is Interactive {
                    self.failing(SessionError::ShellStartError)
                } else {
                    self.failing(SessionError::ExecError)
                },
                Phase::EnteringRawMode => if event is Completed {
                    SessionView { phase: Phase::Looping, ..self }
                } else {
                    self.failing(SessionError::TerminalModeError)
                },
                Phase::Looping => self.looped(event->Loop_0),
                Phase::Closing => self.disconnected(event is Completed),
                Phase::Restoring => self.restored(event is Completed),
                _ => self,
            }
        }
    }

    /// The request that a session in this phase has out, if any. While the
    /// event loop runs that is to wait; once the session has finished it is
    /// to stop.
    pub open spec fn pending(self) -> Option<ActionView> {
        match self.phase {
            Phase::Connected => None,
            Phase::Opening => Some(ActionView::OpenChannel),
            Phase::RequestingPty => Some(ActionView::RequestPty(self.pty)),
            Phase::Starting => if self.mode is Interactive {
                Some(ActionView::StartShell)
            } else {
                Some(ActionView::Exec(self.command))
            },
            Phase::EnteringRawMode => Some(ActionView::EnterRawMode),
            Phase::Looping => Some(ActionView::Wait),
            Phase::Closing => Some(ActionView::Disconnect),
            Phase::Restoring => Some(ActionView::RestoreMode),
            Phase::Finished => Some(ActionView::Finish(self.outcome())),
        }
    }

    /// What the driver is asked to do after `event`: nothing if the session
    /// does not take the event; what the event loop decided if the loop took
    /// the event and goes on; else the request of the phase that the session
    /// has entered.
    pub open spec fn answer(self, event: EventView) -> Option<ActionView> {
        if !self.accepts(event) {
            None
        } else if self.phase is Looping && self.next(event).phase is Looping {
            Some(ActionView::of_loop(self.event_loop.action(event->Loop_0)))
        } else {
            self.next(event).pending()
        }
    }

    /// The session after all of `events`, taken in order.
    pub open spec fn run(self, events: Seq<EventView>) -> SessionView
        decreases events.len(),
    {
        if events.len() == 0 {
            self
        } else {
            self.run(events.drop_last()).next(events.last())
        }
    }

    /// The actions that the driver is asked for in answer to `events`, in
    /// order. An event that the session does not take has no answer.
    pub open spec fn trace(self, events: Seq<EventView>) -> Seq<ActionView>
        decreases events.len(),
    {
        if events.len() == 0 {
            Seq::empty()
        } else {
            match self.run(events.drop_last()).answer(events.last()) {
                Some(action) => self.trace(events.drop_last()).push(action),
                None => self.trace(events.drop_last()),
            }
        }
    }
}

/// The mathematical values of a list of events.
pub open spec fn event_views(events: Seq<Event>) -> Seq<EventView> {
    events.map_values(|event: Event| event@)
}

/// The mathematical values of a list of actions.
pub open spec fn action_views(actions: Seq<Action>) -> Seq<ActionView> {
    actions.map_values(|action: Action| action@)
}

/// The mathematical value of an optional channel.
pub open spec fn channel_view(channel: Option<Channel>) -> Option<ChannelModel> {
    match channel {
        Some(channel) => Some(channel@),
        None => None,
    }
}

/// The part of a session that changes as a whole from one phase to the next.
#[derive(Clone, Copy, Debug)]
struct Control {
    mode: Mode,
    phase: Phase,
    channel: Option<Channel>,
    terminal: Terminal,
    event_loop: EventLoop,
    error: Option<SessionError>,
    close_failed: bool,
}

/// One client session on an authenticated transport.
#[derive(Debug)]
pub struct Session {
    control: Control,
    pty: PtyOptions,
    command: String,
}

impl View for Session {
    type V = SessionView;

    closed spec fn view(&self) -> SessionView {
        SessionView {
            mode: self.control.mode,
            phase: self.control.phase,
            channel: channel_view(self.control.channel),
            raw: self.control.terminal.raw(),
            event_loop: self.control.event_loop@,
            pty: self.pty@,
            command: self.command@,
            error: self.control.error,
            close_failed: self.control.close_failed,
        }
    }
}

impl Action {
    /// The action by which the session passes on what the event loop
    /// decided.
    fn of_loop(action: LoopAction) -> (lifted: Action)
        ensures
            lifted@ == ActionView::of_loop(action@),
    {
        match action {
            LoopAction::Send(bytes) => Action::Send(bytes),
            LoopAction::Write(bytes) => Action::Write(bytes),
            LoopAction::Wait => Action::Wait,
            LoopAction::Stop => Action::Disconnect,
        }
    }
}

impl Session {
    #[verifier::type_invariant]
    spec fn inv(self) -> bool {
        self@.wf()
    }

    /// Makes a session of the outcome of the attempt to connect and
    /// authenticate: a session if the remote side accepted the credential,
    /// `AuthenticationError` if it rejected it, and `ConnectionError` if it
    /// never answered.
    pub fn connect(handshake: Handshake) -> (session: Result<Session, SessionError>)
        ensures
            match handshake {
                Handshake::Unreachable => session is Err && session->Err_0
                    == SessionError::ConnectionError,
                Handshake::Answered { accepted: false } => session is Err && session->Err_0
                    == SessionError::AuthenticationError,
                Handshake::Answered { accepted: true } => session is Ok && session->Ok_0@
                    == SessionView::connected(),
            },
            session matches Ok(s) ==> s@.wf(),
    {
        match handshake {
            Handshake::Unreachable => Err(SessionError::ConnectionError),
            Handshake::Answered { accepted } => {
                if accepted {
                    Ok(
                        Session {
                            control: Control {
                                mode: Mode::Interactive,
                                phase: Phase::Connected,
                                channel: None,
                                terminal: Terminal::new(),
                                event_loop: EventLoop::new(),
                                error: None,
                                close_failed: false,
                            },
                            pty: PtyOptions::for_terminal(None),
                            command: String::new(),
                        },
                    )
                } else {
                    Err(SessionError::AuthenticationError)
                }
            },
        }
    }

    /// Sets out to run an interactive shell, on a local terminal of which a
    /// size query returned `probe`, and asks for the channel. On a session
    /// that has set out before, this fails with `ShellStartError` and
    /// changes nothing.
    pub fn run_shell(&mut self, probe: Option<(u16, u16)>) -> (first: Result<Action, SessionError>)
        ensures
            final(self)@.wf(),
            old(self)@.phase is Connected ==> {
                &&& final(self)@ == old(self)@.shell(probe)
                &&& first matches Ok(action)
                &&& action@ == ActionView::OpenChannel
            },
            !(old(self)@.phase is Connected) ==> {
                &&& final(self)@ == old(self)@
                &&& first matches Err(error)
                &&& error == SessionError::ShellStartError
            },
    {
        proof {
            use_type_invariant(&*self);
        }
        match self.control.phase {
            Phase::Connected => {
                self.pty = PtyOptions::for_terminal(probe);
                self.control = Control {
                    mode: Mode::Interactive,
                    phase: Phase::Opening,
                    ..self.control
                };
                Ok(Action::OpenChannel)
            },
            _ => Err(SessionError::ShellStartError),
        }
    }

    /// Sets out to run the command line `command`, and asks for the channel.
    /// On a session that has set out before, this fails with `ExecError` and
    /// changes nothing.
    pub fn call(&mut self, command: &str) -> (first: Result<Action, SessionError>)
        ensures
            final(self)@.wf(),
            old(self)@.phase is Connected ==> {
                &&& final(self)@ == old(self)@.batch(command@)
                &&& first matches Ok(action)
                &&& action@ == ActionView::OpenChannel
            },
            !(old(self)@.phase is Connected) ==> {
                &&& final(self)@ == old(self)@
                &&& first matches Err(error)
                &&& error == SessionError::ExecError
            },
    {
        proof {
            use_type_invariant(&*self);
        }
        match self.control.phase {
            Phase::Connected => {
                self.command = String::from_str(command);
                self.control = Control { mode: Mode::Batch, phase: Phase::Opening, ..self.control };
                Ok(Action::OpenChannel)
            },
            _ => Err(SessionError::ExecError),
        }
    }

    /// Takes one event and says what the driver does next, or nothing if
    /// the session does not take the event in its phase.
    pub fn step(&mut self, event: Event) -> (action: Option<Action>)
        ensures
            old(self)@.wf(),
            final(self)@.wf(),
            final(self)@ == old(self)@.next(event@),
            answer_view(action) == old(self)@.answer(event@),
    {
        proof {
            use_type_invariant(&*self);
        }
        let control = self.control;
        match event {
            Event::Close => match control.phase {
                Phase::Closing | Phase::Restoring | Phase::Finished => None,
                _ => {
                    self.control = Control { phase: Phase::Closing, ..control };
                    Some(Action::Disconnect)
                },
            },
            Event::Loop(event) => match control.phase {
                Phase::Looping => self.step_loop(event),
                _ => None,
            },
            Event::Completed => self.step_answer(true),
            Event::Failed => self.step_answer(false),
        }
    }

    /// Asks for the session to be closed. The first call on a session whose
    /// teardown has not begun asks the driver to disconnect; any other call
    /// changes nothing and asks for nothing. It never fails.
    pub fn close(&mut self) -> (action: Option<Action>)
        ensures
            final(self)@.wf(),
            final(self)@ == old(self)@.next(EventView::Close),
            answer_view(action) == old(self)@.answer(EventView::Close),
            action is Some <==> old(self)@.accepts(EventView::Close),
            action matches Some(a) ==> a@ == ActionView::Disconnect,
    {
        self.step(Event::Close)
    }

    /// One event of the loop, taken while the loop runs.
    fn step_loop(&mut self, event: LoopEvent) -> (action: Option<Action>)
        requires
            old(self)@.phase is Looping,
        ensures
            final(self)@.wf(),
            final(self)@ == old(self)@.next(EventView::Loop(event@)),
            answer_view(action) == old(self)@.answer(EventView::Loop(event@)),
    {
        proof {
            use_type_invariant(&*self);
        }
        let control = self.control;
        let batch = match control.mode {
            Mode::Batch => true,
            Mode::Interactive => false,
        };
        if batch && event.is_local() {
            return None;
        }
        let closed_by_remote = event.is_remote_close();
        let mut event_loop = control.event_loop;
        let decided = event_loop.step(event);
        if event_loop.is_terminated() {
            let channel = match control.channel {
                Some(mut channel) => {
                    if closed_by_remote {
                        channel.close();
                    }
                    Some(channel)
                },
                None => None,
            };
            self.control = Control {
                phase: Phase::Closing,
                event_loop,
                error: event_loop.error(),
                channel,
                ..control
            };
            Some(Action::Disconnect)
        } else {
            self.control = Control { event_loop, ..control };
            Some(Action::of_loop(decided))
        }
    }

    /// The answer to the request that is out: `done` tells whether it was
    /// carried out.
    fn step_answer(&mut self, done: bool) -> (action: Option<Action>)
        ensures
            final(self)@.wf(),
            final(self)@ == old(self)@.next(
                if done {
                    EventView::Completed
                } else {
                    EventView::Failed
                },
            ),
            answer_view(action) == old(self)@.answer(
                if done {
                    EventView::Completed
                } else {
                    EventView::Failed
                },
            ),
    {
        proof {
            use_type_invariant(&*self);
        }
        let control = self.control;
        let interactive = match control.mode {
            Mode::Interactive => true,
            Mode::Batch => false,
        };
        match control.phase {
            Phase::Connected | Phase::Looping | Phase::Finished => None,
            Phase::Opening => match Channel::open(done) {
                Ok(channel) => {
                    if interactive {
                        self.control = Control {
                            channel: Some(channel),
                            phase: Phase::RequestingPty,
                            ..control
                        };
                        Some(Action::RequestPty(self.pty.clone()))
                    } else {
                        self.control = Control {
                            channel: Some(channel),
                            phase: Phase::Starting,
                            ..control
                        };
                        Some(Action::Exec(self.command.clone()))
                    }
                },
                Err(error) => Some(self.fail(error)),
            },
            Phase::RequestingPty => {
                let mut channel = control.channel.unwrap();
                match channel.request_pty(done) {
                    Ok(()) => {
                        self.control = Control {
                            channel: Some(channel),
                            phase: Phase::Starting,
                            ..control
                        };
                        Some(Action::StartShell)
                    },
                    Err(error) => Some(self.fail(error)),
                }
            },
            Phase::Starting => {
                let mut channel = control.channel.unwrap();
                let started = if interactive {
                    channel.start_shell(done)
                } else {
                    channel.exec(done)
                };
                match started {
                    Ok(()) => {
                        if interactive {
                            let mut terminal = control.terminal;
                            terminal.enter_raw_mode();
                            self.control = Control {
                                channel: Some(channel),
                                terminal,
                                phase: Phase::EnteringRawMode,
                                ..control
                            };
                            Some(Action::EnterRawMode)
                        } else {
                            self.control = Control {
                                channel: Some(channel),
                                phase: Phase::Looping,
                                ..control
                            };
                            Some(Action::Wait)
                        }
                    },
                    Err(error) => Some(self.fail(error)),
                }
            },
            Phase::EnteringRawMode => {
                if done {
                    self.control = Control { phase: Phase::Looping, ..control };
                    Some(Action::Wait)
                } else {
                    Some(self.fail(SessionError::TerminalModeError))
                }
            },
            Phase::Closing => {
                let channel = match control.channel {
                    Some(mut channel) => {
                        channel.close();
                        Some(channel)
                    },
                    None => None,
                };
                let mut terminal = control.terminal;
                if terminal.restore_mode() {
                    self.control = Control {
                        phase: Phase::Restoring,
                        terminal,
                        channel,
                        close_failed: !done,
                        ..control
                    };
                    Some(Action::RestoreMode)
                } else {
                    self.control = Control {
                        phase: Phase::Finished,
                        terminal,
                        channel,
                        close_failed: !done,
                        ..control
                    };
                    Some(Action::Finish(self.outcome()))
                }
            },
            Phase::Restoring => {
                let error = match control.error {
                    None => if done {
                        None
                    } else {
                        Some(SessionError::TerminalModeError)
                    },
                    Some(error) => Some(error),
                };
                self.control = Control { phase: Phase::Finished, error, ..control };
                Some(Action::Finish(self.outcome()))
            },
        }
    }

    /// Begins the teardown because of `error`.
    fn fail(&mut self, error: SessionError) -> (action: Action)
        requires
            !(old(self)@.phase is Restoring),
            !(old(self)@.phase is Finished),
            !old(self)@.close_failed,
        ensures
            final(self)@.wf(),
            final(self)@ == old(self)@.failing(error),
            action@ == ActionView::Disconnect,
    {
        proof {
            use_type_invariant(&*self);
        }
        self.control = Control { phase: Phase::Closing, error: Some(error), ..self.control };
        Action::Disconnect
    }

    /// How the session ends if it ends now.
    pub fn outcome(&self) -> (outcome: Outcome)
        ensures
            outcome == self@.outcome(),
    {
        match self.control.error {
            Some(error) => Outcome::Failed(error),
            None => match self.control.mode {
                Mode::Interactive => Outcome::Success,
                Mode::Batch => match self.control.event_loop.exit_status() {
                    Some(status) => Outcome::Exited(status),
                    None => Outcome::Failed(SessionError::MissingExitStatus),
                },
            },
        }
    }

    /// Takes a list of events in order and returns the actions that the
    /// driver was asked for, in order.
    pub fn replay(&mut self, events: Vec<Event>) -> (actions: Vec<Action>)
        ensures
            final(self)@.wf(),
            final(self)@ == old(self)@.run(event_views(events@)),
            action_views(actions@) == old(self)@.trace(event_views(events@)),
    {
        let ghost all = event_views(events@);
        let ghost start = self@;
        let mut actions: Vec<Action> = Vec::new();
        proof {
            use_type_invariant(&*self);
            assert(all.take(0) =~= Seq::empty());
            assert(action_views(actions@) =~= Seq::empty());
        }
        for event in iter: events
            invariant
                event_views(iter.seq()) == all,
                self@.wf(),
                self@ == start.run(all.take(iter.index() as int)),
                action_views(actions@) == start.trace(all.take(iter.index() as int)),
        {
            let ghost done = all.take(iter.index() as int);
            let ghost taken = all.take(iter.index() as int + 1);
            let ghost before = action_views(actions@);
            proof {
                assert(taken.drop_last() =~= done);
                assert(taken.last() == event@);
            }
            match self.step(event) {
                Some(action) => {
                    actions.push(action);
                    proof {
                        assert(action_views(actions@) =~= before.push(action@));
                    }
                },
                None => {},
            }
        }
        proof {
            assert(all.take(all.len() as int) =~= all);
        }
        actions
    }

    /// What the session is for.
    pub fn mode(&self) -> (mode: Mode)
        ensures
            mode == self@.mode,
    {
        self.control.mode
    }

    /// How far the session has come.
    pub fn phase(&self) -> (phase: Phase)
        ensures
            phase == self@.phase,
    {
        self.control.phase
    }

    /// Whether nothing is left to do.
    pub fn is_finished(&self) -> (finished: bool)
        ensures
            finished == (self@.phase is Finished),
            finished ==> !self@.raw,
    {
        proof {
            use_type_invariant(self);
        }
        match self.control.phase {
            Phase::Finished => true,
            _ => false,
        }
    }

    /// Whether the raw-mode guard of the local terminal is held.
    pub fn is_raw(&self) -> (raw: bool)
        ensures
            raw == self@.raw,
    {
        self.control.terminal.is_raw()
    }

    /// The channel, once the transport has opened it.
    pub fn channel(&self) -> (channel: Option<Channel>)
        ensures
            channel_view(channel) == self@.channel,
    {
        self.control.channel
    }

    /// The exit status that the remote program reported last, if any. An
    /// interactive session has it for the log only.
    pub fn exit_status(&self) -> (status: Option<u32>)
        ensures
            status == self@.event_loop.exit_status,
    {
        self.control.event_loop.exit_status()
    }

    /// The failure that ended the session, if one did.
    pub fn error(&self) -> (error: Option<SessionError>)
        ensures
            error == self@.error,
    {
        self.control.error
    }

    /// `CloseError` if the disconnect notice could not be delivered. This is
    /// for the log: it does not change how the session ends.
    pub fn close_error(&self) -> (error: Option<SessionError>)
        ensures
            error == if self@.close_failed {
                Some(SessionError::CloseError)
            } else {
                None
            },
    {
        if self.control.close_failed {
            Some(SessionError::CloseError)
        } else {
            None
        }
    }
}

} // verus!
