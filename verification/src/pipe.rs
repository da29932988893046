//! The handshake through a Unix named pipe (FIFO), for backends without a
//! synchronization mechanism of their own like tmux's `wait-for`.

use vstd::prelude::*;
use vstd::utf8::*;

use crate::clock::{has_expired, HANDSHAKE_TIMEOUT_SECS};
use crate::error::HandshakeError;
use crate::handshake::{PaneHandshake, Shell};
use crate::text::numbered_name;

verus! {

/// How long one poll of the pipe may take (milliseconds).
pub const PIPE_POLL_INTERVAL_MS: i32 = 50;

/// How much is read from the pipe at most (bytes).
pub const SIGNAL_BUFFER_LEN: usize = 64;

/// The event that the pipe is polled for: there is something to read.
pub const INPUT_EVENT: i16 = 0x1;

/// The byte that separates the parts of a path.
pub const SEPARATOR: u8 = 0x2f;

/// The name of the pipe of one process and one moment.
pub open spec fn pipe_name(pid: nat, nanos: nat) -> Seq<char> {
    crate::text::numbered("workmux_pipe_"@, pid, nanos)
}

/// A name in a directory: a separator comes between them unless the directory
/// is empty or ends in one.
pub open spec fn in_directory(dir: Seq<u8>, name: Seq<u8>) -> Seq<u8> {
    if dir.len() == 0 || dir.last() == SEPARATOR {
        dir + name
    } else {
        dir.push(SEPARATOR) + name
    }
}

/// What `String::from_utf8_lossy` makes of the bytes: a Unix path, as it is
/// displayed.
pub uninterp spec fn lossy_text(bytes: Seq<u8>) -> Seq<char>;

/// The script that writes to the pipe and then becomes the shell.
pub open spec fn pipe_script(path: Seq<char>, shell: Seq<char>) -> Seq<char> {
    "echo ready > "@ + path + "; exec '"@ + shell + "' -l"@
}

/// The script as the argument of `sh -c`, in single quotes.
pub open spec fn pipe_wrapper(path: Seq<char>, escaped_shell: Seq<char>) -> Seq<char> {
    "sh -c 'echo ready > "@ + path + "; exec '\\''"@ + escaped_shell + "'\\'' -l'"@
}

/// A poll found something to read.
pub open spec fn readable(ret: i32, revents: i16) -> bool {
    ret > 0 && revents & INPUT_EVENT != 0
}

/// Calls `String::from_utf8_lossy`. Trusted: the result is a function of the
/// bytes, and bytes that are valid UTF-8 become the text that they encode.
/// Where the replacement characters stand in another text is not said here.
#[verifier::external_body]
fn path_text(path: &[u8]) -> (text: String)
    ensures
        text@ == lossy_text(path@),
        valid_utf8(path@) ==> text@ == decode_utf8(path@),
{
    String::from_utf8_lossy(path).into_owned()
}

/// The bits of `nix::sys::stat::Mode::S_IRUSR`. Trusted: it is the permission
/// bit with which the owner can read.
#[verifier::external_body]
fn owner_read() -> (mode: u32)
    ensures
        mode == 0o400,
{
    nix::sys::stat::Mode::S_IRUSR.bits() as u32
}

/// The bits of `nix::sys::stat::Mode::S_IWUSR`. Trusted: it is the permission
/// bit with which the owner can write.
#[verifier::external_body]
fn owner_write() -> (mode: u32)
    ensures
        mode == 0o200,
{
    nix::sys::stat::Mode::S_IWUSR.bits() as u32
}

/// The value of `libc::POLLIN`. Trusted: it is the lowest bit, as it is on every
/// target that the crate `nix` builds for.
#[verifier::external_body]
fn input_event() -> (event: i16)
    ensures
        event == INPUT_EVENT,
{
    libc::POLLIN
}

/// A named pipe that is about to be made.
#[derive(Debug)]
pub struct PipeRequest {
    path: Vec<u8>,
}

impl PipeRequest {
    /// The path of the pipe.
    pub closed spec fn pipe_path(&self) -> Seq<u8> {
        self.path@
    }

    /// The pipe of a process and a moment, in a directory. The moment is given
    /// as the nanoseconds since the Unix epoch, or as nothing where the clock
    /// stands before it.
    pub fn new(temp_dir: &[u8], pid: u32, since_epoch: Option<u128>) -> (request: PipeRequest)
        ensures
            request.pipe_path() == (if temp_dir@.len() == 0 || temp_dir@.last() == 0x2f {
                temp_dir@
            } else {
                temp_dir@.push(0x2f)
            }) + encode_utf8(
                "workmux_pipe_"@ + crate::text::decimal(pid as nat) + "_"@ + crate::text::decimal(
                    match since_epoch {
                        Some(nanos) => nanos as nat,
                        None => 0,
                    },
                ),
            ),
            request.pipe_path() == in_directory(
                temp_dir@,
                encode_utf8(
                    pipe_name(
                        pid as nat,
                        match since_epoch {
                            Some(nanos) => nanos as nat,
                            None => 0,
                        },
                    ),
                ),
            ),
    {
        let nanos: u128 = match since_epoch {
            Some(nanos) => nanos,
            None => 0,
        };
        let name = numbered_name("workmux_pipe_", pid, nanos);
        let mut path: Vec<u8> = Vec::new();
        path.extend_from_slice(temp_dir);
        assert(path@ =~= temp_dir@);
        if temp_dir.len() > 0 && temp_dir[temp_dir.len() - 1] != SEPARATOR {
            path.push(SEPARATOR);
        }
        let ghost dir = path@;
        let name_bytes = name.as_str().as_bytes();
        path.extend_from_slice(name_bytes);
        assert(path@ =~= dir + name_bytes@);
        PipeRequest { path }
    }

    /// The path to make the pipe at.
    pub fn path(&self) -> (path: &[u8])
        ensures
            path@ == self.pipe_path(),
    {
        self.path.as_slice()
    }

    /// The permissions to make the pipe with: owner read/write only.
    pub fn mode(&self) -> (mode: u32)
        ensures
            mode == 0o600,
    {
        assert(0o400u32 | 0o200u32 == 0o600u32) by (bit_vector);
        owner_read() | owner_write()
    }
}

/// Unix named pipe (FIFO) based handshake for backends without wait-for.
///
/// Used by WezTerm and other backends that don't have a built-in
/// synchronization mechanism like tmux's wait-for.
#[derive(Debug)]
pub struct UnixPipeHandshake {
    pipe_path: Vec<u8>,
}

impl UnixPipeHandshake {
    /// The path of the pipe.
    pub closed spec fn pipe_path(&self) -> Seq<u8> {
        self.pipe_path@
    }

    /// A handshake on a named pipe, once the pipe has been made. The shell will
    /// write to the pipe when it is ready.
    pub fn new(request: PipeRequest, made: Result<(), String>) -> (handshake: Result<
        UnixPipeHandshake,
        HandshakeError,
    >)
        ensures
            match made {
                Ok(_) => handshake matches Ok(h) && h.pipe_path() == request.pipe_path(),
                Err(cause) => handshake == Err::<UnixPipeHandshake, HandshakeError>(
                    HandshakeError::PipeNotMade { cause },
                ),
            },
    {
        match made {
            Ok(_) => Ok(UnixPipeHandshake { pipe_path: request.path }),
            Err(cause) => Err(HandshakeError::PipeNotMade { cause }),
        }
    }

    /// The path of the pipe, to be removed when the handshake goes away.
    pub fn path(&self) -> (path: &[u8])
        ensures
            path@ == self.pipe_path(),
    {
        self.pipe_path.as_slice()
    }
}

impl PaneHandshake for UnixPipeHandshake {
    type Wait = PipeWait;

    fn wrapper_command(&self, shell: &Shell) -> (command: String)
        ensures
            command@ == pipe_wrapper(lossy_text(self.pipe_path()), shell.escaped_text()),
            command@ == "sh -c 'echo ready > "@ + lossy_text(self.pipe_path()) + "; exec '\\''"@
                + shell.escaped_text() + "'\\'' -l'"@,
            valid_utf8(self.pipe_path()) ==> lossy_text(self.pipe_path()) == decode_utf8(
                self.pipe_path(),
            ),
            valid_utf8(self.pipe_path()) ==> command@ == pipe_wrapper(
                decode_utf8(self.pipe_path()),
                shell.escaped_text(),
            ),
    {
        let mut command = "sh -c 'echo ready > ".to_owned();
        command.append(path_text(self.pipe_path.as_slice()).as_str());
        command.append("; exec '\\''");
        command.append(shell.escaped());
        command.append("'\\'' -l'");
        command
    }

    fn script_content(&self, shell: &Shell) -> (script: String)
        ensures
            script@ == pipe_script(lossy_text(self.pipe_path()), shell.path_text()),
            script@ == "echo ready > "@ + lossy_text(self.pipe_path()) + "; exec '"@
                + shell.path_text() + "' -l"@,
            valid_utf8(self.pipe_path()) ==> lossy_text(self.pipe_path()) == decode_utf8(
                self.pipe_path(),
            ),
            valid_utf8(self.pipe_path()) ==> script@ == pipe_script(
                decode_utf8(self.pipe_path()),
                shell.path_text(),
            ),
    {
        let mut script = "echo ready > ".to_owned();
        script.append(path_text(self.pipe_path.as_slice()).as_str());
        script.append("; exec '");
        script.append(shell.path());
        script.append("' -l");
        script
    }

    fn wait(self) -> (wait: PipeWait)
        ensures
            wait.pipe_path() == self.pipe_path(),
            wait.phase() == PipePhase::Opening,
    {
        PipeWait { pipe_path: self.pipe_path, phase: PipePhase::Opening }
    }
}

/// How far the waiting has come.
#[derive(Debug, PartialEq, Eq)]
pub enum PipePhase {
    /// The pipe is to be opened.
    Opening,
    /// The clock is to be started.
    Starting,
    /// The pipe is to be polled.
    Polling,
    /// The pipe is to be read.
    Reading,
    /// The clock is to be read.
    Timing,
    /// The pipe is to be removed.
    Removing { result: Result<(), HandshakeError> },
    /// The waiting is over.
    Finished { result: Result<(), HandshakeError> },
}

/// What is to be done next.
#[derive(Clone, Copy, Debug, PartialEq, Eq)]
pub enum PipeAction {
    /// Open the pipe: for reading, for writing, and without blocking, each only
    /// where it says so.
    OpenPipe { read: bool, write: bool, nonblocking: bool },
    /// Note the time.
    StartClock,
    /// Wait for one of the events, but no longer than so long.
    Poll { events: i16, timeout_millis: i32 },
    /// Read from the pipe, but no more than so much.
    Read { max_bytes: usize },
    /// Measure the time since the clock was started.
    ReadClock,
    /// Remove the pipe from its directory.
    RemovePipe,
    /// Return the result.
    Return,
}

/// What came of an action.
#[derive(Debug, PartialEq, Eq)]
pub enum PipeEvent {
    /// The pipe was opened.
    Opened,
    /// The pipe could not be opened.
    OpenFailed { cause: String },
    /// The time was noted.
    ClockStarted,
    /// What a poll returned, and the events that it reported.
    Polled { ret: i32, revents: i16 },
    /// What a read returned: the number of bytes, or a negative number.
    WasRead { bytes: isize },
    /// So much time has passed.
    Elapsed { nanos: u128 },
    /// The pipe was removed, or could not be.
    Removed,
}

impl PipePhase {
    /// What is to be done in this phase. The pipe is opened for reading only,
    /// and without blocking while there is no writer.
    pub open spec fn action(self) -> PipeAction {
        match self {
            PipePhase::Opening => PipeAction::OpenPipe {
                read: true,
                write: false,
                nonblocking: true,
            },
            PipePhase::Starting => PipeAction::StartClock,
            PipePhase::Polling => PipeAction::Poll {
                events: INPUT_EVENT,
                timeout_millis: PIPE_POLL_INTERVAL_MS,
            },
            PipePhase::Reading => PipeAction::Read { max_bytes: SIGNAL_BUFFER_LEN },
            PipePhase::Timing => PipeAction::ReadClock,
            PipePhase::Removing { .. } => PipeAction::RemovePipe,
            PipePhase::Finished { .. } => PipeAction::Return,
        }
    }
}

/// Can the event come of the action?
pub open spec fn pipe_answers(action: PipeAction, event: PipeEvent) -> bool {
    match action {
        PipeAction::OpenPipe { .. } => event is Opened || event is OpenFailed,
        PipeAction::StartClock => event is ClockStarted,
        PipeAction::Poll { .. } => event is Polled,
        PipeAction::Read { .. } => event is WasRead,
        PipeAction::ReadClock => event is Elapsed,
        PipeAction::RemovePipe => event is Removed,
        PipeAction::Return => false,
    }
}

/// The phase that follows on an event. The pipe is polled until there is
/// something to read or too much time has gone by. Whatever happened, even
/// where it could not be opened, it is removed before the waiting is over. Only
/// a read that returns something counts as a signal.
pub open spec fn pipe_next(phase: PipePhase, event: PipeEvent) -> PipePhase {
    match event {
        PipeEvent::Opened => PipePhase::Starting,
        PipeEvent::OpenFailed { cause } => PipePhase::Removing {
            result: Err(HandshakeError::PipeNotOpened { cause }),
        },
        PipeEvent::ClockStarted => PipePhase::Polling,
        PipeEvent::Polled { ret, revents } => if readable(ret, revents) {
            PipePhase::Reading
        } else {
            PipePhase::Timing
        },
        PipeEvent::WasRead { bytes } => PipePhase::Removing {
            result: if bytes > 0 {
                Ok(())
            } else {
                Err(HandshakeError::PipeClosed)
            },
        },
        PipeEvent::Elapsed { nanos } => if crate::clock::expired(nanos, HANDSHAKE_TIMEOUT_SECS) {
            PipePhase::Removing { result: Err(HandshakeError::TimedOut) }
        } else {
            PipePhase::Polling
        },
        PipeEvent::Removed => PipePhase::Finished { result: phase->Removing_result },
    }
}

/// Waiting for the shell to write to the pipe.
///
/// The caller carries out the action that is due and reports what came of it,
/// until the result is there.
#[derive(Debug)]
pub struct PipeWait {
    pipe_path: Vec<u8>,
    phase: PipePhase,
}

impl PipeWait {
    /// The path of the pipe.
    pub closed spec fn pipe_path(&self) -> Seq<u8> {
        self.pipe_path@
    }

    /// How far the waiting has come.
    pub closed spec fn phase(&self) -> PipePhase {
        self.phase
    }

    /// The path of the pipe that `OpenPipe` opens and `RemovePipe` removes.
    pub fn path(&self) -> (path: &[u8])
        ensures
            path@ == self.pipe_path(),
    {
        self.pipe_path.as_slice()
    }

    /// The action that is due.
    pub fn action(&self) -> (action: PipeAction)
        ensures
            action == self.phase().action(),
    {
        match &self.phase {
            PipePhase::Opening => PipeAction::OpenPipe {
                read: true,
                write: false,
                nonblocking: true,
            },
            PipePhase::Starting => PipeAction::StartClock,
            PipePhase::Polling => PipeAction::Poll {
                events: input_event(),
                timeout_millis: PIPE_POLL_INTERVAL_MS,
            },
            PipePhase::Reading => PipeAction::Read { max_bytes: SIGNAL_BUFFER_LEN },
            PipePhase::Timing => PipeAction::ReadClock,
            PipePhase::Removing { .. } => PipeAction::RemovePipe,
            PipePhase::Finished { .. } => PipeAction::Return,
        }
    }

    /// Takes in what came of the action that was due. An event that cannot
    /// come of it is refused, and the waiting is handed back as it was.
    pub fn step(self, event: PipeEvent) -> (next: Result<PipeWait, PipeWait>)
        ensures
            match next {
                Ok(w) => {
                    &&& pipe_answers(self.phase().action(), event)
                    &&& w.phase() == pipe_next(self.phase(), event)
                    &&& w.pipe_path() == self.pipe_path()
                },
                Err(w) => !pipe_answers(self.phase().action(), event) && w == self,
            },
    {
        let pipe_path = self.pipe_path;
        let phase = match (self.phase, event) {
            (PipePhase::Opening, PipeEvent::Opened) => PipePhase::Starting,
            (PipePhase::Opening, PipeEvent::OpenFailed { cause }) => PipePhase::Removing {
                result: Err(HandshakeError::PipeNotOpened { cause }),
            },
            (PipePhase::Starting, PipeEvent::ClockStarted) => PipePhase::Polling,
            (PipePhase::Polling, PipeEvent::Polled { ret, revents }) => {
                if ret > 0 && (revents & input_event()) != 0 {
                    PipePhase::Reading
                } else {
                    PipePhase::Timing
                }
            },
            (PipePhase::Reading, PipeEvent::WasRead { bytes }) => PipePhase::Removing {
                result: if bytes > 0 {
                    Ok(())
                } else {
                    Err(HandshakeError::PipeClosed)
                },
            },
            (PipePhase::Timing, PipeEvent::Elapsed { nanos }) => {
                if has_expired(nanos, HANDSHAKE_TIMEOUT_SECS) {
                    PipePhase::Removing { result: Err(HandshakeError::TimedOut) }
                } else {
                    PipePhase::Polling
                }
            },
            (PipePhase::Removing { result }, PipeEvent::Removed) => PipePhase::Finished {
                result,
            },
            (phase, _) => {
                return Err(PipeWait { pipe_path, phase });
            },
        };
        Ok(PipeWait { pipe_path, phase })
    }

    /// The result, once the waiting is over.
    pub fn result(&self) -> (result: Option<&Result<(), HandshakeError>>)
        ensures
            match result {
                Some(r) => self.phase() == (PipePhase::Finished { result: *r }),
                None => self.phase() !is Finished,
            },
    {
        match &self.phase {
            PipePhase::Finished { result } => Some(result),
            _ => None,
        }
    }
}

} // verus!
