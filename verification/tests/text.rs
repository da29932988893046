use pane_handshake::clock::has_expired;
use pane_handshake::error::HandshakeError;
use pane_handshake::text::{append_decimal, numbered_name};

#[test]
fn numbers_are_written_in_decimal() {
    for n in [0u128, 1, 9, 10, 11, 99, 100, 101, 1_234_567_890, u64::MAX as u128, u128::MAX] {
        let mut out = String::from("n=");
        append_decimal(&mut out, n);
        assert_eq!(out, format!("n={}", n));
    }
}

#[test]
fn names_hold_both_numbers() {
    assert_eq!(numbered_name("wm_ready_", 4321, 17), "wm_ready_4321_17");
    assert_eq!(numbered_name("", 0, 0), "0_0");
    assert_ne!(numbered_name("p", 1, 23), numbered_name("p", 12, 3));
}

#[test]
fn a_limit_is_reached_to_the_nanosecond() {
    assert!(!has_expired(4_999_999_999, 5));
    assert!(has_expired(5_000_000_000, 5));
    assert!(has_expired(u128::MAX, u64::MAX));
    assert!(has_expired(0, 0));
}

fn cause() -> String {
    "no such file".to_string()
}

#[test]
fn errors_have_their_messages() {
    let expected = [
        (HandshakeError::LockFailed { cause: cause() }, "Failed to initialize wait channel"),
        (HandshakeError::SpawnFailed { cause: cause() }, "Failed to spawn tmux wait-for command"),
        (
            HandshakeError::PollFailed { cause: cause() },
            "Error waiting for pane handshake: no such file",
        ),
        (
            HandshakeError::WaiterFailed,
            "Pane handshake failed - tmux wait-for returned error",
        ),
        (HandshakeError::CleanupFailed { cause: cause() }, "Failed to cleanup wait channel"),
        (HandshakeError::PipeNotMade { cause: cause() }, "Failed to create named pipe"),
        (HandshakeError::PipeNotOpened { cause: cause() }, "Failed to open pipe for reading"),
        (HandshakeError::PipeClosed, "Pipe closed without receiving handshake signal"),
        (
            HandshakeError::TimedOut,
            "Pane handshake timed out after 5s - shell may have failed to start",
        ),
    ];
    for (error, message) in expected {
        assert_eq!(error.message(), message);
    }
}

#[test]
fn errors_wrap_their_causes() {
    assert_eq!(HandshakeError::LockFailed { cause: cause() }.cause(), Some("no such file"));
    assert_eq!(HandshakeError::SpawnFailed { cause: cause() }.cause(), Some("no such file"));
    assert_eq!(HandshakeError::CleanupFailed { cause: cause() }.cause(), Some("no such file"));
    assert_eq!(HandshakeError::PipeNotMade { cause: cause() }.cause(), Some("no such file"));
    assert_eq!(HandshakeError::PipeNotOpened { cause: cause() }.cause(), Some("no such file"));
    assert_eq!(HandshakeError::PollFailed { cause: cause() }.cause(), None);
    assert_eq!(HandshakeError::WaiterFailed.cause(), None);
    assert_eq!(HandshakeError::PipeClosed.cause(), None);
    assert_eq!(HandshakeError::TimedOut.cause(), None);
}
