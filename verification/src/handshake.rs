//! What every pane handshake offers.
//!
//! Different backends use different mechanisms to ensure a shell is ready
//! before commands are sent to a pane.

use vstd::prelude::*;

verus! {

/// A shell that is to be started in a pane: its path, and the same path
/// escaped for a place between single quotes inside an `sh -c` command.
#[derive(Debug)]
pub struct Shell {
    path: String,
    escaped: String,
}

impl Shell {
    /// The path of the shell.
    pub closed spec fn path_text(&self) -> Seq<char> {
        self.path@
    }

    /// The path of the shell, escaped.
    pub closed spec fn escaped_text(&self) -> Seq<char> {
        self.escaped@
    }

    /// A shell with its path and the escaped form of its path.
    pub fn new(path: &str, escaped: &str) -> (shell: Shell)
        ensures
            shell.path_text() == path@,
            shell.escaped_text() == escaped@,
    {
        Shell { path: path.to_owned(), escaped: escaped.to_owned() }
    }

    /// The path of the shell.
    pub fn path(&self) -> (path: &str)
        ensures
            path@ == self.path_text(),
    {
        self.path.as_str()
    }

    /// The path of the shell, escaped.
    pub fn escaped(&self) -> (escaped: &str)
        ensures
            escaped@ == self.escaped_text(),
    {
        self.escaped.as_str()
    }
}

/// A pane handshake.
///
/// A handshake ensures the shell has started in a pane before commands are
/// sent to it. Different backends may use different mechanisms (tmux wait-for,
/// named pipes, etc.)
pub trait PaneHandshake: Send + Sized {
    /// Waiting for the signal, step by step.
    type Wait;

    /// A full shell command that signals readiness and then becomes the shell,
    /// formatted for direct shell evaluation (e.g., `sh -c "..."`).
    fn wrapper_command(&self, shell: &Shell) -> (command: String);

    /// The raw POSIX script body that signals readiness and then becomes the
    /// shell, without the `sh -c` around it. A handshake that has none gives its
    /// wrapper command.
    fn script_content(&self, shell: &Shell) -> (script: String)
        default_ensures
            call_ensures(Self::wrapper_command, (self, shell), script),
    {
        self.wrapper_command(shell)
    }

    /// Begins the waiting for the signal, consuming the handshake.
    fn wait(self) -> (wait: Self::Wait);
}

} // verus!
