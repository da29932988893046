[package]
name = "pane_handshake"
version = "0.1.0"
edition = "2021"
publish = false

[dependencies]
anyhow = "1"
console = "0.16"
libc = "0.2"
nix = { version = "0.30", features = ["fs"] }
tracing = "0.1"
