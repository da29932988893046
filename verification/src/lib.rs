//! Pane handshakes: how a program that opens a terminal pane learns that the
//! shell in it has started, and that the shell shows its prompt.

pub mod clock;
pub mod error;
pub mod handshake;
pub mod pipe;
pub mod pipe_laws;
pub mod prompt;
pub mod prompt_laws;
pub mod prompt_wait;
pub mod prompt_wait_laws;
pub mod text;
pub mod tmux;
pub mod tmux_laws;
