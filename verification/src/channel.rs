//! The channel of a session: what has been asked of it so far, and what
//! may still be asked.

use vstd::prelude::*;
use crate::error::SessionError;

verus! {

/// The mathematical value of a [`Channel`].
pub struct ChannelModel {
    /// A pseudo-terminal was requested and granted.
    pub pty_requested: bool,
    /// A shell or a command was started.
    pub started: bool,
    /// The channel is closed, by either side.
    pub closed: bool,
}

impl ChannelModel {
    /// A channel that was just opened.
    pub open spec fn opened() -> ChannelModel {
        ChannelModel { pty_requested: false, started: false, closed: false }
    }

    /// A pseudo-terminal is requested at most once, and before the shell or
    /// command is started.
    pub open spec fn may_request_pty(self) -> bool {
        !self.pty_requested && !self.started && !self.closed
    }

    /// A shell or a command is started at most once.
    pub open spec fn may_start(self) -> bool {
        !self.started && !self.closed
    }

    /// Bytes are accepted once a shell or a command runs, until the channel
    /// is closed.
    pub open spec fn may_send(self) -> bool {
        self.started && !self.closed
    }

    pub open spec fn with_pty(self) -> ChannelModel {
        ChannelModel { pty_requested: true, ..self }
    }

    pub open spec fn with_start(self) -> ChannelModel {
        ChannelModel { started: true, ..self }
    }

    pub open spec fn with_close(self) -> ChannelModel {
        ChannelModel { closed: true, ..self }
    }
}

/// One logical stream over the transport, used for one shell or command.
///
/// The methods take the verdict of the remote side on a request that the
/// driver made, and keep the book on what the channel has been asked.
#[derive(Clone, Copy, Debug)]
pub struct Channel {
    pty_requested: bool,
    started: bool,
    closed: bool,
}

impl View for Channel {
    type V = ChannelModel;

    closed spec fn view(&self) -> ChannelModel {
        ChannelModel {
            pty_requested: self.pty_requested,
            started: self.started,
            closed: self.closed,
        }
    }
}

impl Channel {
    /// The channel that the transport opened, or `ChannelOpenError` if it
    /// refused to.
    pub fn open(granted: bool) -> (channel: Result<Channel, SessionError>)
        ensures
            granted ==> channel is Ok && channel->Ok_0@ == ChannelModel::opened(),
            !granted ==> channel == Err::<Channel, SessionError>(SessionError::ChannelOpenError),
    {
        if granted {
            Ok(Channel { pty_requested: false, started: false, closed: false })
        } else {
            Err(SessionError::ChannelOpenError)
        }
    }

    /// Records a pseudo-terminal request that the remote side answered with
    /// `granted`. Fails with `PtyRequestError` if the remote side declined,
    /// or if the channel must not be asked: the channel is then unchanged.
    pub fn request_pty(&mut self, granted: bool) -> (outcome: Result<(), SessionError>)
        ensures
            outcome is Ok <==> granted && old(self)@.may_request_pty(),
            outcome is Ok ==> final(self)@ == old(self)@.with_pty(),
            outcome is Err ==> final(self)@ == old(self)@ && outcome
                == Err::<(), SessionError>(SessionError::PtyRequestError),
    {
        if granted && !self.pty_requested && !self.started && !self.closed {
            self.pty_requested = true;
            Ok(())
        } else {
            Err(SessionError::PtyRequestError)
        }
    }

    /// Records a shell request that the remote side answered with `granted`.
    /// Fails with `ShellStartError` if the remote side declined, or if a
    /// shell or command was started before: the channel is then unchanged.
    pub fn start_shell(&mut self, granted: bool) -> (outcome: Result<(), SessionError>)
        ensures
            outcome is Ok <==> granted && old(self)@.may_start(),
            outcome is Ok ==> final(self)@ == old(self)@.with_start(),
            outcome is Err ==> final(self)@ == old(self)@ && outcome
                == Err::<(), SessionError>(SessionError::ShellStartError),
    {
        if granted && !self.started && !self.closed {
            self.started = true;
            Ok(())
        } else {
            Err(SessionError::ShellStartError)
        }
    }

    /// Records a request to run a command that the remote side answered with
    /// `granted`. Fails with `ExecError` if the remote side declined, or if
    /// a shell or command was started before: the channel is then unchanged.
    pub fn exec(&mut self, granted: bool) -> (outcome: Result<(), SessionError>)
        ensures
            outcome is Ok <==> granted && old(self)@.may_start(),
            outcome is Ok ==> final(self)@ == old(self)@.with_start(),
            outcome is Err ==> final(self)@ == old(self)@ && outcome
                == Err::<(), SessionError>(SessionError::ExecError),
    {
        if granted && !self.started && !self.closed {
            self.started = true;
            Ok(())
        } else {
            Err(SessionError::ExecError)
        }
    }

    /// Judges a write of bytes to the channel that the transport answered
    /// with `delivered`. Fails with `ChannelWriteError` if the transport
    /// reported a failure, if nothing was started yet, or if the channel is
    /// closed.
    pub fn send(&self, delivered: bool) -> (outcome: Result<(), SessionError>)
        ensures
            outcome is Ok <==> delivered && self@.may_send(),
            outcome is Err ==> outcome == Err::<(), SessionError>(
                SessionError::ChannelWriteError,
            ),
    {
        if delivered && self.started && !self.closed {
            Ok(())
        } else {
            Err(SessionError::ChannelWriteError)
        }
    }

    /// Closes the channel and tells whether this call closed it. On a
    /// channel that is closed already nothing happens.
    pub fn close(&mut self) -> (closed_now: bool)
        ensures
            closed_now == !old(self)@.closed,
            final(self)@ == old(self)@.with_close(),
    {
        let closed_now = !self.closed;
        self.closed = true;
        closed_now
    }

    /// Whether a pseudo-terminal was requested and granted.
    pub fn pty_requested(&self) -> (requested: bool)
        ensures
            requested == self@.pty_requested,
    {
        self.pty_requested
    }

    /// Whether a shell or a command was started.
    pub fn is_started(&self) -> (started: bool)
        ensures
            started == self@.started,
    {
        self.started
    }

    /// Whether the channel is closed.
    pub fn is_closed(&self) -> (closed: bool)
        ensures
            closed == self@.closed,
    {
        self.closed
    }
}

/// Closing is idempotent: a second close changes nothing and closes nothing.
pub proof fn lemma_close_twice(channel: ChannelModel)
    ensures
        channel.with_close().with_close() == channel.with_close(),
        channel.with_close().closed,
        !channel.with_close().may_send(),
        !channel.with_close().may_start(),
        !channel.with_close().may_request_pty(),
{
}

} // verus!
