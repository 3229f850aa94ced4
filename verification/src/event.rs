//! What the event loop is told, and what it answers.

use vstd::prelude::*;
use vstd::slice::{slice_subrange, slice_to_vec};
use crate::error::SessionError;

verus! {

/// One message read from the remote channel.
#[derive(Clone, Debug, PartialEq, Eq)]
pub enum SshEvent {
    /// Bytes of the primary output stream.
    Data(Vec<u8>),
    /// Bytes of a secondary output stream, with the tag of that stream.
    ExtendedData(Vec<u8>, u32),
    /// The exit status of the remote program.
    Exit(u32),
    /// The channel is closed: nothing follows.
    Closed,
}

/// The mathematical value of an [`SshEvent`].
pub enum SshEventView {
    Data(Seq<u8>),
    ExtendedData(Seq<u8>, u32),
    Exit(u32),
    Closed,
}

impl SshEventView {
    /// The bytes that the message carries for the local output, in order.
    /// Both output streams go to the same sink.
    pub open spec fn payload(self) -> Seq<u8> {
        match self {
            SshEventView::Data(bytes) => bytes,
            SshEventView::ExtendedData(bytes, _) => bytes,
            SshEventView::Exit(_) => Seq::empty(),
            SshEventView::Closed => Seq::empty(),
        }
    }
}

impl View for SshEvent {
    type V = SshEventView;

    open spec fn view(&self) -> SshEventView {
        match self {
            SshEvent::Data(bytes) => SshEventView::Data(bytes@),
            SshEvent::ExtendedData(bytes, stream) => SshEventView::ExtendedData(bytes@, *stream),
            SshEvent::Exit(status) => SshEventView::Exit(*status),
            SshEvent::Closed => SshEventView::Closed,
        }
    }
}

/// One thing that happened while the event loop was waiting.
#[derive(Clone, Debug, PartialEq, Eq)]
pub enum LoopEvent {
    /// A read of local input returned these bytes. No bytes means that the
    /// local input has ended.
    LocalInput(Vec<u8>),
    /// A read of local input failed.
    LocalReadError,
    /// The channel produced a message.
    Remote(SshEvent),
    /// The bytes of the last `Send` could not be written to the channel.
    SendFailed,
    /// The bytes of the last `Write` could not be written to local output.
    WriteFailed,
}

/// The mathematical value of a [`LoopEvent`].
pub enum LoopEventView {
    LocalInput(Seq<u8>),
    LocalReadError,
    Remote(SshEventView),
    SendFailed,
    WriteFailed,
}

impl LoopEventView {
    /// The bytes that the event offers to the remote side.
    pub open spec fn local_payload(self) -> Seq<u8> {
        match self {
            LoopEventView::LocalInput(bytes) => bytes,
            _ => Seq::empty(),
        }
    }

    /// The bytes that the event offers to the local output.
    pub open spec fn remote_payload(self) -> Seq<u8> {
        match self {
            LoopEventView::Remote(message) => message.payload(),
            _ => Seq::empty(),
        }
    }

    /// The events of the local input: a read, a failed read, and a failed
    /// write of what was read.
    pub open spec fn local(self) -> bool {
        self is LocalInput || self is LocalReadError || self is SendFailed
    }

    /// The events after which a running loop goes on: input that is not the
    /// end of input, remote output, and a remote exit status.
    pub open spec fn keeps_running(self) -> bool {
        match self {
            LoopEventView::LocalInput(bytes) => bytes.len() > 0,
            LoopEventView::Remote(message) => !(message is Closed),
            _ => false,
        }
    }

    /// The failure that the event reports, if it reports one.
    pub open spec fn failure(self) -> Option<SessionError> {
        match self {
            LoopEventView::LocalReadError => Some(SessionError::LocalReadError),
            LoopEventView::SendFailed => Some(SessionError::ChannelWriteError),
            LoopEventView::WriteFailed => Some(SessionError::LocalWriteError),
            _ => None,
        }
    }

    /// What a read of local input amounts to: `None` for a failed read,
    /// else the number of bytes that the read left at the front of `buffer`.
    pub open spec fn of_read(buffer: Seq<u8>, read: Option<usize>) -> LoopEventView {
        match read {
            None => LoopEventView::LocalReadError,
            Some(n) => if n <= buffer.len() {
                LoopEventView::LocalInput(buffer.subrange(0, n as int))
            } else {
                LoopEventView::LocalInput(buffer)
            },
        }
    }
}

impl View for LoopEvent {
    type V = LoopEventView;

    open spec fn view(&self) -> LoopEventView {
        match self {
            LoopEvent::LocalInput(bytes) => LoopEventView::LocalInput(bytes@),
            LoopEvent::LocalReadError => LoopEventView::LocalReadError,
            LoopEvent::Remote(message) => LoopEventView::Remote(message@),
            LoopEvent::SendFailed => LoopEventView::SendFailed,
            LoopEvent::WriteFailed => LoopEventView::WriteFailed,
        }
    }
}

impl LoopEvent {
    /// Whether this is an event of the local input.
    pub fn is_local(&self) -> (local: bool)
        ensures
            local == self@.local(),
    {
        match self {
            LoopEvent::LocalInput(_) => true,
            LoopEvent::LocalReadError => true,
            LoopEvent::SendFailed => true,
            _ => false,
        }
    }

    /// Whether this is the message that the channel is closed.
    pub fn is_remote_close(&self) -> (closed: bool)
        ensures
            closed == (self@ == LoopEventView::Remote(SshEventView::Closed)),
    {
        match self {
            LoopEvent::Remote(SshEvent::Closed) => true,
            _ => false,
        }
    }

    /// Turns the outcome of one read of local input into an event. `read` is
    /// `None` when the read failed, else the number of bytes it stored at the
    /// front of `buffer`; a count beyond the buffer stands for the whole
    /// buffer.
    pub fn from_read(buffer: &[u8], read: Option<usize>) -> (event: LoopEvent)
        ensures
            event@ == LoopEventView::of_read(buffer@, read),
    {
        match read {
            None => LoopEvent::LocalReadError,
            Some(n) => {
                if n <= buffer.len() {
                    LoopEvent::LocalInput(slice_to_vec(slice_subrange(buffer, 0, n)))
                } else {
                    LoopEvent::LocalInput(slice_to_vec(buffer))
                }
            },
        }
    }
}

/// What the driver of the event loop does next.
#[derive(Clone, Debug, PartialEq, Eq)]
pub enum LoopAction {
    /// Write these bytes to the channel, then wait for the next event.
    Send(Vec<u8>),
    /// Write these bytes to local output and flush, then wait for the next
    /// event.
    Write(Vec<u8>),
    /// Wait for the next event.
    Wait,
    /// Leave the loop.
    Stop,
}

/// The mathematical value of a [`LoopAction`].
pub enum LoopActionView {
    Send(Seq<u8>),
    Write(Seq<u8>),
    Wait,
    Stop,
}

impl LoopActionView {
    /// The bytes that the action hands to the channel.
    pub open spec fn sent(self) -> Seq<u8> {
        match self {
            LoopActionView::Send(bytes) => bytes,
            _ => Seq::empty(),
        }
    }

    /// The bytes that the action hands to local output.
    pub open spec fn written(self) -> Seq<u8> {
        match self {
            LoopActionView::Write(bytes) => bytes,
            _ => Seq::empty(),
        }
    }
}

impl View for LoopAction {
    type V = LoopActionView;

    open spec fn view(&self) -> LoopActionView {
        match self {
            LoopAction::Send(bytes) => LoopActionView::Send(bytes@),
            LoopAction::Write(bytes) => LoopActionView::Write(bytes@),
            LoopAction::Wait => LoopActionView::Wait,
            LoopAction::Stop => LoopActionView::Stop,
        }
    }
}

} // verus!
