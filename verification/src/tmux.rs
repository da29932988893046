//! The handshake through tmux's `wait-for` channels.
//!
//! 1. Lock a unique channel.
//! 2. Start the shell with a wrapper that unlocks the channel when ready.
//! 3. Wait for the shell to signal readiness: a second lock is granted only
//!    once the shell has unlocked the channel.
//! 4. Unlock the channel again.

use vstd::prelude::*;

use crate::clock::{has_expired, HANDSHAKE_TIMEOUT_SECS};
use crate::error::HandshakeError;
use crate::handshake::{PaneHandshake, Shell};
use crate::text::numbered_name;

verus! {

/// How long to sleep between two looks at the waiting process (milliseconds).
pub const WAITER_POLL_INTERVAL_MS: u64 = 50;

/// The name of the channel of one process and one moment.
pub open spec fn channel_name(pid: nat, nanos: nat) -> Seq<char> {
    crate::text::numbered("wm_ready_"@, pid, nanos)
}

/// The command that locks a channel: it blocks while another lock is held.
pub open spec fn lock_text(channel: Seq<char>) -> Seq<Seq<char>> {
    seq!["tmux"@, "wait-for"@, "-L"@, channel]
}

/// The command that unlocks a channel.
pub open spec fn unlock_text(channel: Seq<char>) -> Seq<Seq<char>> {
    seq!["tmux"@, "wait-for"@, "-U"@, channel]
}

/// The program and the arguments of a command.
pub open spec fn words(command: Seq<String>) -> Seq<Seq<char>> {
    command.map_values(|word: String| word@)
}

/// The script that unlocks the channel, with echo disabled, and then becomes
/// the shell.
pub open spec fn tmux_script(channel: Seq<char>, shell: Seq<char>) -> Seq<char> {
    "stty -echo 2>/dev/null; tmux wait-for -U "@ + channel + "; stty echo 2>/dev/null; exec '"@
        + shell + "' -l"@
}

/// The script as the argument of `sh -c`, in double quotes.
pub open spec fn tmux_wrapper(channel: Seq<char>, escaped_shell: Seq<char>) -> Seq<char> {
    "sh -c \""@ + tmux_script(channel, escaped_shell) + "\""@
}

/// Appends the script that signals on the channel and becomes the shell.
fn append_script(out: &mut String, channel: &str, shell: &str)
    ensures
        final(out)@ == old(out)@ + tmux_script(channel@, shell@),
{
    out.append("stty -echo 2>/dev/null; tmux wait-for -U ");
    out.append(channel);
    out.append("; stty echo 2>/dev/null; exec '");
    out.append(shell);
    out.append("' -l");
}

/// The words of a `tmux wait-for` command.
fn wait_for_command(flag: &str, channel: &str) -> (command: Vec<String>)
    ensures
        words(command@) == seq!["tmux"@, "wait-for"@, flag@, channel@],
        command@.len() == 4,
        command@[0]@ == "tmux"@,
        command@[1]@ == "wait-for"@,
        command@[2]@ == flag@,
        command@[3]@ == channel@,
{
    let mut command: Vec<String> = Vec::new();
    command.push("tmux".to_owned());
    command.push("wait-for".to_owned());
    command.push(flag.to_owned());
    command.push(channel.to_owned());
    command
}

/// A channel that is about to be locked.
#[derive(Debug)]
pub struct ChannelLock {
    channel: String,
}

impl ChannelLock {
    /// The name of the channel.
    pub closed spec fn channel(&self) -> Seq<char> {
        self.channel@
    }

    /// The channel of a process and a moment: the nanoseconds since the Unix
    /// epoch, or nothing where the clock stands before it.
    pub fn new(pid: u32, since_epoch: Option<u128>) -> (lock: ChannelLock)
        ensures
            lock.channel() == channel_name(
                pid as nat,
                match since_epoch {
                    Some(nanos) => nanos as nat,
                    None => 0,
                },
            ),
            lock.channel() == "wm_ready_"@ + crate::text::decimal(pid as nat) + "_"@
                + crate::text::decimal(
                match since_epoch {
                    Some(nanos) => nanos as nat,
                    None => 0,
                },
            ),
    {
        let nanos: u128 = match since_epoch {
            Some(nanos) => nanos,
            None => 0,
        };
        ChannelLock { channel: numbered_name("wm_ready_", pid, nanos) }
    }

    /// The command that locks the channel.
    pub fn command(&self) -> (command: Vec<String>)
        ensures
            words(command@) == lock_text(self.channel()),
            command@.len() == 4,
            command@[0]@ == "tmux"@,
            command@[1]@ == "wait-for"@,
            command@[2]@ == "-L"@,
            command@[3]@ == self.channel(),
    {
        wait_for_command("-L", self.channel.as_str())
    }
}

/// Manages the tmux wait-for handshake protocol for pane synchronization.
///
/// The handshake uses tmux's `wait-for` feature with channel locking to
/// synchronize between the process that opens the pane and the shell that
/// starts inside it.
#[derive(Debug)]
pub struct TmuxHandshake {
    channel: String,
}

impl TmuxHandshake {
    /// The name of the channel.
    pub closed spec fn channel(&self) -> Seq<char> {
        self.channel@
    }

    /// A handshake on a channel, once the command that locks it has been run.
    ///
    /// The channel must be locked before the pane is opened: the signal is not
    /// missed then, even if the shell starts instantly.
    pub fn new(lock: ChannelLock, locked: Result<(), String>) -> (handshake: Result<
        TmuxHandshake,
        HandshakeError,
    >)
        ensures
            match locked {
                Ok(_) => handshake matches Ok(h) && h.channel() == lock.channel(),
                Err(cause) => handshake == Err::<TmuxHandshake, HandshakeError>(
                    HandshakeError::LockFailed { cause },
                ),
            },
    {
        match locked {
            Ok(_) => Ok(TmuxHandshake { channel: lock.channel }),
            Err(cause) => Err(HandshakeError::LockFailed { cause }),
        }
    }
}

impl PaneHandshake for TmuxHandshake {
    type Wait = TmuxWait;

    /// Builds a shell wrapper command that signals readiness.
    ///
    /// The wrapper briefly disables echo while signaling the channel, restores
    /// it, then becomes the shell so the TTY starts in a normal state. Double
    /// quotes are used so that the command also works where tmux's
    /// default-shell is a non-POSIX shell like nushell.
    fn wrapper_command(&self, shell: &Shell) -> (command: String)
        ensures
            command@ == tmux_wrapper(self.channel(), shell.escaped_text()),
            command@ == "sh -c \""@ + "stty -echo 2>/dev/null; tmux wait-for -U "@ + self.channel()
                + "; stty echo 2>/dev/null; exec '"@ + shell.escaped_text() + "' -l"@ + "\""@,
    {
        let mut command = "sh -c \"".to_owned();
        append_script(&mut command, self.channel.as_str(), shell.escaped());
        command.append("\"");
        command
    }

    fn script_content(&self, shell: &Shell) -> (script: String)
        ensures
            script@ == tmux_script(self.channel(), shell.path_text()),
            script@ == "stty -echo 2>/dev/null; tmux wait-for -U "@ + self.channel()
                + "; stty echo 2>/dev/null; exec '"@ + shell.path_text() + "' -l"@,
    {
        let mut script = String::new();
        append_script(&mut script, self.channel.as_str(), shell.path());
        script
    }

    fn wait(self) -> (wait: TmuxWait)
        ensures
            wait.channel() == self.channel(),
            wait.phase() == TmuxPhase::Spawning,
    {
        TmuxWait { channel: self.channel, phase: TmuxPhase::Spawning }
    }
}

/// How far the waiting has come.
#[derive(Debug, PartialEq, Eq)]
pub enum TmuxPhase {
    /// The waiting process is to be started.
    Spawning,
    /// The clock is to be started.
    Starting,
    /// The waiting process is to be looked at.
    Polling,
    /// The clock is to be read.
    Timing,
    /// Some time is to pass before the next look.
    Sleeping,
    /// The waiting process is to be killed.
    Killing { error: HandshakeError },
    /// The waiting process is to be reaped.
    Reaping { error: HandshakeError },
    /// The channel is to be unlocked.
    Unlocking { result: Result<(), HandshakeError> },
    /// The waiting is over.
    Finished { result: Result<(), HandshakeError> },
}

/// What is to be done next.
#[derive(Clone, Copy, Debug, PartialEq, Eq)]
pub enum TmuxAction {
    /// Start the command that locks the channel, without waiting for its end.
    SpawnLock,
    /// Note the time.
    StartClock,
    /// See whether the started process has ended.
    PollWaiter,
    /// Measure the time since the clock was started.
    ReadClock,
    /// Let some time pass.
    Sleep { millis: u64 },
    /// Kill the started process.
    KillWaiter,
    /// Wait for the end of the killed process.
    ReapWaiter,
    /// Run the command that unlocks the channel.
    Unlock,
    /// Return the result.
    Return,
}

/// What came of an action.
#[derive(Debug, PartialEq, Eq)]
pub enum TmuxEvent {
    /// The process was started.
    Spawned,
    /// The process could not be started.
    SpawnFailed { cause: String },
    /// The time was noted.
    ClockStarted,
    /// The process has not ended.
    Running,
    /// The process has ended.
    Exited { success: bool },
    /// The process could not be looked at.
    PollFailed { cause: String },
    /// So much time has passed.
    Elapsed { nanos: u128 },
    /// The time to sleep has passed.
    Slept,
    /// The process was killed, or could not be.
    Killed,
    /// The process was reaped, or could not be.
    Reaped,
    /// The channel was unlocked.
    Unlocked,
    /// The channel could not be unlocked.
    UnlockFailed { cause: String },
}

impl TmuxPhase {
    /// What is to be done in this phase.
    pub open spec fn action(self) -> TmuxAction {
        match self {
            TmuxPhase::Spawning => TmuxAction::SpawnLock,
            TmuxPhase::Starting => TmuxAction::StartClock,
            TmuxPhase::Polling => TmuxAction::PollWaiter,
            TmuxPhase::Timing => TmuxAction::ReadClock,
            TmuxPhase::Sleeping => TmuxAction::Sleep { millis: WAITER_POLL_INTERVAL_MS },
            TmuxPhase::Killing { .. } => TmuxAction::KillWaiter,
            TmuxPhase::Reaping { .. } => TmuxAction::ReapWaiter,
            TmuxPhase::Unlocking { .. } => TmuxAction::Unlock,
            TmuxPhase::Finished { .. } => TmuxAction::Return,
        }
    }
}

/// Can the event come of the action?
pub open spec fn tmux_answers(action: TmuxAction, event: TmuxEvent) -> bool {
    match action {
        TmuxAction::SpawnLock => event is Spawned || event is SpawnFailed,
        TmuxAction::StartClock => event is ClockStarted,
        TmuxAction::PollWaiter => event is Running || event is Exited || event is PollFailed,
        TmuxAction::ReadClock => event is Elapsed,
        TmuxAction::Sleep { .. } => event is Slept,
        TmuxAction::KillWaiter => event is Killed,
        TmuxAction::ReapWaiter => event is Reaped,
        TmuxAction::Unlock => event is Unlocked || event is UnlockFailed,
        TmuxAction::Return => false,
    }
}

/// The phase that follows on an event. The waiting process is polled until it
/// ends, cannot be polled, or has run for too long; a process that has not
/// ended is killed and reaped; and whatever happened, even where the process
/// could not be started, the channel is unlocked before the waiting is over.
/// That this fails matters only where the shell was ready.
pub open spec fn tmux_next(phase: TmuxPhase, event: TmuxEvent) -> TmuxPhase {
    match event {
        TmuxEvent::Spawned => TmuxPhase::Starting,
        TmuxEvent::SpawnFailed { cause } => TmuxPhase::Unlocking {
            result: Err(HandshakeError::SpawnFailed { cause }),
        },
        TmuxEvent::ClockStarted => TmuxPhase::Polling,
        TmuxEvent::Running => TmuxPhase::Timing,
        TmuxEvent::Exited { success } => TmuxPhase::Unlocking {
            result: if success {
                Ok(())
            } else {
                Err(HandshakeError::WaiterFailed)
            },
        },
        TmuxEvent::PollFailed { cause } => TmuxPhase::Killing {
            error: HandshakeError::PollFailed { cause },
        },
        TmuxEvent::Elapsed { nanos } => if crate::clock::expired(nanos, HANDSHAKE_TIMEOUT_SECS) {
            TmuxPhase::Killing { error: HandshakeError::TimedOut }
        } else {
            TmuxPhase::Sleeping
        },
        TmuxEvent::Slept => TmuxPhase::Polling,
        TmuxEvent::Killed => TmuxPhase::Reaping { error: phase->Killing_error },
        TmuxEvent::Reaped => TmuxPhase::Unlocking { result: Err(phase->Reaping_error) },
        TmuxEvent::Unlocked => TmuxPhase::Finished { result: phase->Unlocking_result },
        TmuxEvent::UnlockFailed { cause } => TmuxPhase::Finished {
            result: if phase->Unlocking_result is Ok {
                Err(HandshakeError::CleanupFailed { cause })
            } else {
                phase->Unlocking_result
            },
        },
    }
}

/// Waiting for the shell to signal it is ready, and cleaning up then.
///
/// The caller carries out the action that is due and reports what came of it,
/// until the result is there.
#[derive(Debug)]
pub struct TmuxWait {
    channel: String,
    phase: TmuxPhase,
}

impl TmuxWait {
    /// The name of the channel.
    pub closed spec fn channel(&self) -> Seq<char> {
        self.channel@
    }

    /// How far the waiting has come.
    pub closed spec fn phase(&self) -> TmuxPhase {
        self.phase
    }

    /// The action that is due.
    pub fn action(&self) -> (action: TmuxAction)
        ensures
            action == self.phase().action(),
    {
        match &self.phase {
            TmuxPhase::Spawning => TmuxAction::SpawnLock,
            TmuxPhase::Starting => TmuxAction::StartClock,
            TmuxPhase::Polling => TmuxAction::PollWaiter,
            TmuxPhase::Timing => TmuxAction::ReadClock,
            TmuxPhase::Sleeping => TmuxAction::Sleep { millis: WAITER_POLL_INTERVAL_MS },
            TmuxPhase::Killing { .. } => TmuxAction::KillWaiter,
            TmuxPhase::Reaping { .. } => TmuxAction::ReapWaiter,
            TmuxPhase::Unlocking { .. } => TmuxAction::Unlock,
            TmuxPhase::Finished { .. } => TmuxAction::Return,
        }
    }

    /// The command that `SpawnLock` starts.
    pub fn lock_command(&self) -> (command: Vec<String>)
        ensures
            words(command@) == lock_text(self.channel()),
            command@.len() == 4,
            command@[0]@ == "tmux"@,
            command@[1]@ == "wait-for"@,
            command@[2]@ == "-L"@,
            command@[3]@ == self.channel(),
    {
        wait_for_command("-L", self.channel.as_str())
    }

    /// The command that `Unlock` runs.
    pub fn unlock_command(&self) -> (command: Vec<String>)
        ensures
            words(command@) == unlock_text(self.channel()),
            command@.len() == 4,
            command@[0]@ == "tmux"@,
            command@[1]@ == "wait-for"@,
            command@[2]@ == "-U"@,
            command@[3]@ == self.channel(),
    {
        wait_for_command("-U", self.channel.as_str())
    }

    /// Takes in what came of the action that was due. An event that cannot
    /// come of it is refused, and the waiting is handed back as it was.
    pub fn step(self, event: TmuxEvent) -> (next: Result<TmuxWait, TmuxWait>)
        ensures
            match next {
                Ok(w) => {
                    &&& tmux_answers(self.phase().action(), event)
                    &&& w.phase() == tmux_next(self.phase(), event)
                    &&& w.channel() == self.channel()
                },
                Err(w) => !tmux_answers(self.phase().action(), event) && w == self,
            },
    {
        let channel = self.channel;
        let phase = match (self.phase, event) {
            (TmuxPhase::Spawning, TmuxEvent::Spawned) => TmuxPhase::Starting,
            (TmuxPhase::Spawning, TmuxEvent::SpawnFailed { cause }) => TmuxPhase::Unlocking {
                result: Err(HandshakeError::SpawnFailed { cause }),
            },
            (TmuxPhase::Starting, TmuxEvent::ClockStarted) => TmuxPhase::Polling,
            (TmuxPhase::Polling, TmuxEvent::Running) => TmuxPhase::Timing,
            (TmuxPhase::Polling, TmuxEvent::Exited { success }) => TmuxPhase::Unlocking {
                result: if success {
                    Ok(())
                } else {
                    Err(HandshakeError::WaiterFailed)
                },
            },
            (TmuxPhase::Polling, TmuxEvent::PollFailed { cause }) => TmuxPhase::Killing {
                error: HandshakeError::PollFailed { cause },
            },
            (TmuxPhase::Timing, TmuxEvent::Elapsed { nanos }) => {
                if has_expired(nanos, HANDSHAKE_TIMEOUT_SECS) {
                    TmuxPhase::Killing { error: HandshakeError::TimedOut }
                } else {
                    TmuxPhase::Sleeping
                }
            },
            (TmuxPhase::Sleeping, TmuxEvent::Slept) => TmuxPhase::Polling,
            (TmuxPhase::Killing { error }, TmuxEvent::Killed) => TmuxPhase::Reaping { error },
            (TmuxPhase::Reaping { error }, TmuxEvent::Reaped) => TmuxPhase::Unlocking {
                result: Err(error),
            },
            (TmuxPhase::Unlocking { result }, TmuxEvent::Unlocked) => TmuxPhase::Finished {
                result,
            },
            (TmuxPhase::Unlocking { result }, TmuxEvent::UnlockFailed { cause }) => {
                TmuxPhase::Finished {
                    result: match result {
                        Ok(_) => Err(HandshakeError::CleanupFailed { cause }),
                        Err(error) => Err(error),
                    },
                }
            },
            (phase, _) => {
                return Err(TmuxWait { channel, phase });
            },
        };
        Ok(TmuxWait { channel, phase })
    }

    /// The result, once the waiting is over.
    pub fn result(&self) -> (result: Option<&Result<(), HandshakeError>>)
        ensures
            match result {
                Some(r) => self.phase() == (TmuxPhase::Finished { result: *r }),
                None => self.phase() !is Finished,
            },
    {
        match &self.phase {
            TmuxPhase::Finished { result } => Some(result),
            _ => None,
        }
    }
}

} // verus!
