//! Why a handshake could not be set up, or did not come about.

use vstd::prelude::*;

use crate::clock::HANDSHAKE_TIMEOUT_SECS;
use crate::text::append_decimal;

verus! {

/// Why a handshake failed. A `cause` is the message of the operation that failed.
#[derive(Debug, PartialEq, Eq)]
pub enum HandshakeError {
    /// The wait channel could not be locked.
    LockFailed { cause: String },
    /// The `tmux wait-for` process could not be started.
    SpawnFailed { cause: String },
    /// The `tmux wait-for` process could not be watched.
    PollFailed { cause: String },
    /// The `tmux wait-for` process ended with a failure.
    WaiterFailed,
    /// The shell was ready, but the wait channel could not be unlocked again.
    CleanupFailed { cause: String },
    /// The named pipe could not be made.
    PipeNotMade { cause: String },
    /// The named pipe could not be opened.
    PipeNotOpened { cause: String },
    /// The named pipe became readable and held nothing.
    PipeClosed,
    /// The shell gave no sign in time.
    TimedOut,
}

impl HandshakeError {
    /// The message that the error is reported with.
    pub open spec fn message_text(&self) -> Seq<char> {
        match self {
            HandshakeError::LockFailed { .. } => "Failed to initialize wait channel"@,
            HandshakeError::SpawnFailed { .. } => "Failed to spawn tmux wait-for command"@,
            HandshakeError::PollFailed { cause } => "Error waiting for pane handshake: "@ + cause@,
            HandshakeError::WaiterFailed =>
                "Pane handshake failed - tmux wait-for returned error"@,
            HandshakeError::CleanupFailed { .. } => "Failed to cleanup wait channel"@,
            HandshakeError::PipeNotMade { .. } => "Failed to create named pipe"@,
            HandshakeError::PipeNotOpened { .. } => "Failed to open pipe for reading"@,
            HandshakeError::PipeClosed => "Pipe closed without receiving handshake signal"@,
            HandshakeError::TimedOut => "Pane handshake timed out after "@ + crate::text::decimal(
                HANDSHAKE_TIMEOUT_SECS as nat,
            ) + "s - shell may have failed to start"@,
        }
    }

    /// The message of the error that this one wraps. An error that was met
    /// while polling is quoted in the message itself and not wrapped.
    pub open spec fn wrapped_cause(&self) -> Option<Seq<char>> {
        match self {
            HandshakeError::LockFailed { cause } => Some(cause@),
            HandshakeError::SpawnFailed { cause } => Some(cause@),
            HandshakeError::CleanupFailed { cause } => Some(cause@),
            HandshakeError::PipeNotMade { cause } => Some(cause@),
            HandshakeError::PipeNotOpened { cause } => Some(cause@),
            _ => None,
        }
    }

    /// The message that the error is reported with.
    pub fn message(&self) -> (message: String)
        ensures
            message@ == self.message_text(),
            self is PollFailed ==> message@ == "Error waiting for pane handshake: "@
                + self->PollFailed_cause@,
    {
        match self {
            HandshakeError::LockFailed { .. } => "Failed to initialize wait channel".to_owned(),
            HandshakeError::SpawnFailed { .. } => {
                "Failed to spawn tmux wait-for command".to_owned()
            },
            HandshakeError::PollFailed { cause } => {
                let mut message = "Error waiting for pane handshake: ".to_owned();
                message.append(cause.as_str());
                message
            },
            HandshakeError::WaiterFailed => {
                "Pane handshake failed - tmux wait-for returned error".to_owned()
            },
            HandshakeError::CleanupFailed { .. } => "Failed to cleanup wait channel".to_owned(),
            HandshakeError::PipeNotMade { .. } => "Failed to create named pipe".to_owned(),
            HandshakeError::PipeNotOpened { .. } => "Failed to open pipe for reading".to_owned(),
            HandshakeError::PipeClosed => {
                "Pipe closed without receiving handshake signal".to_owned()
            },
            HandshakeError::TimedOut => {
                let mut message = "Pane handshake timed out after ".to_owned();
                append_decimal(&mut message, HANDSHAKE_TIMEOUT_SECS as u128);
                message.append("s - shell may have failed to start");
                message
            },
        }
    }

    /// The message of the error that this one wraps, if it wraps one.
    pub fn cause(&self) -> (cause: Option<&str>)
        ensures
            match cause {
                Some(c) => self.wrapped_cause() == Some(c@),
                None => self.wrapped_cause() is None,
            },
    {
        match self {
            HandshakeError::LockFailed { cause } => Some(cause.as_str()),
            HandshakeError::SpawnFailed { cause } => Some(cause.as_str()),
            HandshakeError::CleanupFailed { cause } => Some(cause.as_str()),
            HandshakeError::PipeNotMade { cause } => Some(cause.as_str()),
            HandshakeError::PipeNotOpened { cause } => Some(cause.as_str()),
            _ => None,
        }
    }
}

/// Each error is reported with its own words. What went wrong while polling is
/// quoted whole.
pub proof fn messages_say_what_failed(error: HandshakeError)
    ensures
        error is LockFailed ==> error.message_text() == "Failed to initialize wait channel"@,
        error is SpawnFailed ==> error.message_text() == "Failed to spawn tmux wait-for command"@,
        error is PollFailed ==> error.message_text() == "Error waiting for pane handshake: "@
            + error->PollFailed_cause@,
        error is WaiterFailed ==> error.message_text()
            == "Pane handshake failed - tmux wait-for returned error"@,
        error is CleanupFailed ==> error.message_text() == "Failed to cleanup wait channel"@,
        error is PipeNotMade ==> error.message_text() == "Failed to create named pipe"@,
        error is PipeNotOpened ==> error.message_text() == "Failed to open pipe for reading"@,
        error is PipeClosed ==> error.message_text()
            == "Pipe closed without receiving handshake signal"@,
        error is TimedOut ==> error.message_text()
            == "Pane handshake timed out after 5s - shell may have failed to start"@,
{
    reveal_strlit("Pane handshake timed out after ");
    reveal_strlit("s - shell may have failed to start");
    reveal_strlit("Pane handshake timed out after 5s - shell may have failed to start");
    assert(crate::text::decimal(5) =~= seq!['5']);
    assert("Pane handshake timed out after "@ + seq!['5'] + "s - shell may have failed to start"@
        =~= "Pane handshake timed out after 5s - shell may have failed to start"@);
}

/// An error that wraps another one tells the whole cause.
pub proof fn causes_are_told_whole(error: HandshakeError)
    ensures
        error is LockFailed ==> error.wrapped_cause() == Some(error->LockFailed_cause@),
        error is SpawnFailed ==> error.wrapped_cause() == Some(error->SpawnFailed_cause@),
        error is CleanupFailed ==> error.wrapped_cause() == Some(error->CleanupFailed_cause@),
        error is PipeNotMade ==> error.wrapped_cause() == Some(error->PipeNotMade_cause@),
        error is PipeNotOpened ==> error.wrapped_cause() == Some(error->PipeNotOpened_cause@),
        error is PollFailed || error is WaiterFailed || error is PipeClosed || error is TimedOut
            ==> error.wrapped_cause() is None,
{
}

} // verus!
