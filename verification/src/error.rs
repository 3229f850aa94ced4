//! The failures a session can end with.

use vstd::prelude::*;

verus! {

/// Why a session, or one of its requests, failed.
#[derive(Clone, Copy, Debug, PartialEq, Eq, Structural)]
pub enum SessionError {
    /// The remote side rejected the credential.
    AuthenticationError,
    /// The transport could not be established or broke down.
    ConnectionError,
    /// The transport refused to open a channel.
    ChannelOpenError,
    /// The remote side declined the pseudo-terminal.
    PtyRequestError,
    /// The remote side declined to start a shell.
    ShellStartError,
    /// The remote side declined to run the command.
    ExecError,
    /// Writing to the channel failed.
    ChannelWriteError,
    /// Reading local input failed.
    LocalReadError,
    /// Writing local output failed.
    LocalWriteError,
    /// The local terminal could not be switched between cooked and raw mode.
    TerminalModeError,
    /// The disconnect notice could not be delivered.
    CloseError,
    /// The channel closed before the remote command reported an exit status.
    MissingExitStatus,
}

impl SessionError {
    /// The diagnostic text of each error.
    pub open spec fn message_text(self) -> Seq<char> {
        match self {
            SessionError::AuthenticationError => "Authentication (with password) failed"@,
            SessionError::ConnectionError => "Connection to the remote host failed"@,
            SessionError::ChannelOpenError => "Opening the session channel was refused"@,
            SessionError::PtyRequestError => "The pseudo-terminal request was refused"@,
            SessionError::ShellStartError => "Starting the remote shell was refused"@,
            SessionError::ExecError => "Running the remote command was refused"@,
            SessionError::ChannelWriteError => "Error writing to the channel"@,
            SessionError::LocalReadError => "Error reading from stdin"@,
            SessionError::LocalWriteError => "Error writing to stdout"@,
            SessionError::TerminalModeError => "Error switching the terminal mode"@,
            SessionError::CloseError => "Error closing the session"@,
            SessionError::MissingExitStatus => "program did not exit cleanly"@,
        }
    }

    /// Whether the error ends the session. Only a failed disconnect does not:
    /// the session is ending anyway.
    pub open spec fn fatal(self) -> bool {
        self != SessionError::CloseError
    }

    /// The single diagnostic line shown to the user for this error.
    pub fn message(&self) -> (text: &'static str)
        ensures
            text@ == self.message_text(),
    {
        match self {
            SessionError::AuthenticationError => "Authentication (with password) failed",
            SessionError::ConnectionError => "Connection to the remote host failed",
            SessionError::ChannelOpenError => "Opening the session channel was refused",
            SessionError::PtyRequestError => "The pseudo-terminal request was refused",
            SessionError::ShellStartError => "Starting the remote shell was refused",
            SessionError::ExecError => "Running the remote command was refused",
            SessionError::ChannelWriteError => "Error writing to the channel",
            SessionError::LocalReadError => "Error reading from stdin",
            SessionError::LocalWriteError => "Error writing to stdout",
            SessionError::TerminalModeError => "Error switching the terminal mode",
            SessionError::CloseError => "Error closing the session",
            SessionError::MissingExitStatus => "program did not exit cleanly",
        }
    }

    /// Whether this error ends the session.
    pub fn is_fatal(&self) -> (fatal: bool)
        ensures
            fatal == self.fatal(),
    {
        match self {
            SessionError::CloseError => false,
            _ => true,
        }
    }
}

} // verus!
