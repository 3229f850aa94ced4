//! Sans-I/O core of an interactive remote-shell client.
//!
//! The crate holds the decisions of one client session: how a channel is set
//! up, how bytes are bridged between the local terminal and the remote
//! channel, and how the session is torn down. It performs no I/O itself. A
//! driver performs each action that the session asks for and reports what
//! happened as an event.
//!
//! - [`session`]: the session from the authenticated transport to the exit
//!   code, and [`lifecycle`]: what holds on every path through it.
//! - [`event_loop`]: the loop that bridges both directions, over the events
//!   and actions of [`event`], and [`fidelity`]: what it guarantees about the
//!   bytes.
//! - [`channel`], [`terminal`], [`pty`]: the channel, the local terminal and
//!   the options of a pseudo-terminal request.
//! - [`command`]: the command line of a batch session.
//! - [`error`]: the failures.

pub mod channel;
pub mod command;
pub mod error;
pub mod event;
pub mod event_loop;
pub mod fidelity;
pub mod lifecycle;
pub mod pty;
pub mod session;
pub mod terminal;
