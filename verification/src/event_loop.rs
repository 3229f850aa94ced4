//! The event loop: the state machine that bridges local input and remote
//! output until one side ends the session.

use vstd::prelude::*;
use crate::error::SessionError;
use crate::event::{LoopAction, LoopActionView, LoopEvent, LoopEventView, SshEvent, SshEventView};

verus! {

/// The size of the buffer that one read of local input fills at most.
pub const INPUT_BUFFER_SIZE: usize = 1024;

/// Where the event loop stands.
#[derive(Clone, Copy, Debug, PartialEq, Eq, Structural)]
pub enum LoopState {
    /// Both directions are being bridged.
    Running,
    /// The remote program reported its exit status. Output that still
    /// arrives before the channel closes is bridged as before.
    Draining,
    /// The loop is over.
    Terminated,
}

/// The mathematical value of an [`EventLoop`].
pub struct LoopModel {
    pub state: LoopState,
    /// The exit status that the remote program reported last.
    pub exit_status: Option<u32>,
    /// The failure that ended the loop.
    pub error: Option<SessionError>,
}

impl LoopModel {
    /// A loop that has seen no event.
    pub open spec fn start() -> LoopModel {
        LoopModel { state: LoopState::Running, exit_status: None, error: None }
    }

    /// A loop drains exactly when it holds an exit status and goes on, and
    /// holds an error only once it is over.
    pub open spec fn wf(self) -> bool {
        &&& self.state is Running ==> self.exit_status is None
        &&& self.state is Draining ==> self.exit_status is Some
        &&& self.error is Some ==> self.state is Terminated
    }

    pub open spec fn terminated(self) -> bool {
        self.state is Terminated
    }

    /// The loop ended by the failure `error`.
    pub open spec fn aborted(self, error: SessionError) -> LoopModel {
        LoopModel { state: LoopState::Terminated, error: Some(error), ..self }
    }

    /// The loop ended without a failure.
    pub open spec fn ended(self) -> LoopModel {
        LoopModel { state: LoopState::Terminated, ..self }
    }

    /// The loop after `event`. A loop that is over stays as it is.
    pub open spec fn next(self, event: LoopEventView) -> LoopModel {
        if self.terminated() {
            self
        } else {
            match event {
                LoopEventView::LocalInput(bytes) => if bytes.len() == 0 {
                    self.ended()
                } else {
                    self
                },
                LoopEventView::LocalReadError => self.aborted(SessionError::LocalReadError),
                LoopEventView::Remote(SshEventView::Data(_)) => self,
                LoopEventView::Remote(SshEventView::ExtendedData(_, _)) => self,
                LoopEventView::Remote(SshEventView::Exit(status)) => LoopModel {
                    state: LoopState::Draining,
                    exit_status: Some(status),
                    ..self
                },
                LoopEventView::Remote(SshEventView::Closed) => self.ended(),
                LoopEventView::SendFailed => self.aborted(SessionError::ChannelWriteError),
                LoopEventView::WriteFailed => self.aborted(SessionError::LocalWriteError),
            }
        }
    }

    /// What the driver does in answer to `event`. Bytes are passed on as they
    /// came, each chunk by itself.
    pub open spec fn action(self, event: LoopEventView) -> LoopActionView {
        if self.terminated() {
            LoopActionView::Stop
        } else {
            match event {
                LoopEventView::LocalInput(bytes) => if bytes.len() == 0 {
                    LoopActionView::Stop
                } else {
                    LoopActionView::Send(bytes)
                },
                LoopEventView::Remote(SshEventView::Data(bytes)) => LoopActionView::Write(bytes),
                LoopEventView::Remote(SshEventView::ExtendedData(bytes, _)) => LoopActionView::Write(
                    bytes,
                ),
                LoopEventView::Remote(SshEventView::Exit(_)) => LoopActionView::Wait,
                _ => LoopActionView::Stop,
            }
        }
    }

    /// The loop after all of `events`, taken in order.
    pub open spec fn run(self, events: Seq<LoopEventView>) -> LoopModel
        decreases events.len(),
    {
        if events.len() == 0 {
            self
        } else {
            self.run(events.drop_last()).next(events.last())
        }
    }

    /// The actions that answer `events`, one for each event, in order.
    pub open spec fn trace(self, events: Seq<LoopEventView>) -> Seq<LoopActionView>
        decreases events.len(),
    {
        if events.len() == 0 {
            Seq::empty()
        } else {
            self.trace(events.drop_last()).push(
                self.run(events.drop_last()).action(events.last()),
            )
        }
    }
}

/// The mathematical values of a list of events.
pub open spec fn event_views(events: Seq<LoopEvent>) -> Seq<LoopEventView> {
    events.map_values(|event: LoopEvent| event@)
}

/// The mathematical values of a list of actions.
pub open spec fn action_views(actions: Seq<LoopAction>) -> Seq<LoopActionView> {
    actions.map_values(|action: LoopAction| action@)
}

/// The event loop of one session.
#[derive(Clone, Copy, Debug)]
pub struct EventLoop {
    state: LoopState,
    exit_status: Option<u32>,
    error: Option<SessionError>,
}

impl View for EventLoop {
    type V = LoopModel;

    closed spec fn view(&self) -> LoopModel {
        LoopModel { state: self.state, exit_status: self.exit_status, error: self.error }
    }
}

impl EventLoop {
    #[verifier::type_invariant]
    spec fn inv(self) -> bool {
        self@.wf()
    }

    /// A loop that has seen no event.
    pub fn new() -> (fresh: EventLoop)
        ensures
            fresh@ == LoopModel::start(),
    {
        EventLoop { state: LoopState::Running, exit_status: None, error: None }
    }

    /// Takes one event and says what the driver does next.
    pub fn step(&mut self, event: LoopEvent) -> (action: LoopAction)
        ensures
            old(self)@.wf(),
            final(self)@.wf(),
            final(self)@ == old(self)@.next(event@),
            action@ == old(self)@.action(event@),
    {
        proof {
            use_type_invariant(&*self);
        }
        if let LoopState::Terminated = self.state {
            return LoopAction::Stop;
        }
        match event {
            LoopEvent::LocalInput(bytes) => {
                if bytes.len() == 0 {
                    self.state = LoopState::Terminated;
                    LoopAction::Stop
                } else {
                    LoopAction::Send(bytes)
                }
            },
            LoopEvent::LocalReadError => {
                self.abort(SessionError::LocalReadError);
                LoopAction::Stop
            },
            LoopEvent::Remote(SshEvent::Data(bytes)) => LoopAction::Write(bytes),
            LoopEvent::Remote(SshEvent::ExtendedData(bytes, _)) => LoopAction::Write(bytes),
            LoopEvent::Remote(SshEvent::Exit(status)) => {
                *self = EventLoop {
                    state: LoopState::Draining,
                    exit_status: Some(status),
                    error: self.error,
                };
                LoopAction::Wait
            },
            LoopEvent::Remote(SshEvent::Closed) => {
                self.state = LoopState::Terminated;
                LoopAction::Stop
            },
            LoopEvent::SendFailed => {
                self.abort(SessionError::ChannelWriteError);
                LoopAction::Stop
            },
            LoopEvent::WriteFailed => {
                self.abort(SessionError::LocalWriteError);
                LoopAction::Stop
            },
        }
    }

    /// Takes a list of events in order and returns the action that answers
    /// each.
    pub fn run(&mut self, events: Vec<LoopEvent>) -> (actions: Vec<LoopAction>)
        ensures
            final(self)@.wf(),
            final(self)@ == old(self)@.run(event_views(events@)),
            action_views(actions@) == old(self)@.trace(event_views(events@)),
    {
        let ghost all = event_views(events@);
        let ghost start = self@;
        let mut actions: Vec<LoopAction> = Vec::new();
        proof {
            use_type_invariant(&*self);
            assert(all.take(0) =~= Seq::empty());
            assert(action_views(actions@) =~= Seq::empty());
        }
        for event in iter: events
            invariant
                event_views(iter.seq()) == all,
                self@.wf(),
                self@ == start.run(all.take(iter.index() as int)),
                action_views(actions@) == start.trace(all.take(iter.index() as int)),
        {
            let ghost done = all.take(iter.index() as int);
            let ghost taken = all.take(iter.index() as int + 1);
            let ghost before = action_views(actions@);
            let action = self.step(event);
            actions.push(action);
            proof {
                assert(taken.drop_last() =~= done);
                assert(taken.last() == event@);
                assert(action_views(actions@) =~= before.push(action@));
            }
        }
        proof {
            assert(all.take(all.len() as int) =~= all);
        }
        actions
    }

    fn abort(&mut self, error: SessionError)
        ensures
            final(self)@ == old(self)@.aborted(error),
    {
        *self = EventLoop {
            state: LoopState::Terminated,
            exit_status: self.exit_status,
            error: Some(error),
        };
    }

    /// Where the loop stands.
    pub fn state(&self) -> (state: LoopState)
        ensures
            state == self@.state,
    {
        self.state
    }

    /// Whether the loop is over.
    pub fn is_terminated(&self) -> (over: bool)
        ensures
            over == self@.terminated(),
    {
        match self.state {
            LoopState::Terminated => true,
            _ => false,
        }
    }

    /// The exit status that the remote program reported last, if any.
    pub fn exit_status(&self) -> (status: Option<u32>)
        ensures
            status == self@.exit_status,
    {
        self.exit_status
    }

    /// The failure that ended the loop, if one did.
    pub fn error(&self) -> (error: Option<SessionError>)
        ensures
            error == self@.error,
    {
        self.error
    }
}

} // verus!
