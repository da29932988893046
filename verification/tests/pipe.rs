use pane_handshake::error::HandshakeError;
use pane_handshake::handshake::{PaneHandshake, Shell};
use pane_handshake::pipe::{PipeAction, PipeEvent, PipeRequest, PipeWait, UnixPipeHandshake};

const POLLIN: i16 = libc::POLLIN;
const POLLHUP: i16 = libc::POLLHUP;

fn handshake() -> UnixPipeHandshake {
    UnixPipeHandshake::new(PipeRequest::new(b"/tmp", 42, Some(17)), Ok(())).unwrap()
}

fn run(events: Vec<PipeEvent>) -> PipeWait {
    let mut wait = handshake().wait();
    for event in events {
        wait = wait.step(event).unwrap();
    }
    wait
}

fn quiet() -> PipeEvent {
    PipeEvent::Polled { ret: 0, revents: 0 }
}

fn ready() -> PipeEvent {
    PipeEvent::Polled { ret: 1, revents: POLLIN }
}

fn text(s: &str) -> String {
    s.to_string()
}

#[test]
fn the_pipe_is_in_the_directory() {
    assert_eq!(PipeRequest::new(b"/tmp", 42, Some(17)).path(), b"/tmp/workmux_pipe_42_17");
    assert_eq!(PipeRequest::new(b"/tmp/", 42, Some(17)).path(), b"/tmp/workmux_pipe_42_17");
    assert_eq!(PipeRequest::new(b"", 42, None).path(), b"workmux_pipe_42_0");
    assert_eq!(PipeRequest::new(b"/", 1, Some(2)).path(), b"/workmux_pipe_1_2");
    assert_eq!(PipeRequest::new(b"/\xff", 1, Some(2)).path(), b"/\xff/workmux_pipe_1_2");
}

#[test]
fn paths_are_joined_as_the_standard_library_joins_them() {
    for dir in ["/tmp", "/tmp/", "", "/", "rel", "/var//", "/ä"] {
        let joined = std::path::Path::new(dir).join("workmux_pipe_42_17");
        let request = PipeRequest::new(dir.as_bytes(), 42, Some(17));
        assert_eq!(request.path(), joined.to_str().unwrap().as_bytes());
    }
}

#[test]
fn pipes_of_other_moments_differ() {
    let one = PipeRequest::new(b"/tmp", 1, Some(23));
    let other = PipeRequest::new(b"/tmp", 12, Some(3));
    assert_ne!(one.path(), other.path());
}

#[test]
fn only_the_owner_can_use_the_pipe() {
    assert_eq!(PipeRequest::new(b"/tmp", 42, Some(17)).mode(), 0o600);
}

#[test]
fn no_handshake_without_the_pipe() {
    let failed = UnixPipeHandshake::new(PipeRequest::new(b"/tmp", 42, None), Err(text("EACCES")));
    assert_eq!(failed.unwrap_err(), HandshakeError::PipeNotMade { cause: text("EACCES") });
}

#[test]
fn the_wrapper_writes_and_becomes_the_shell() {
    let shell = Shell::new("/bin/zsh", "/bin/zsh");
    assert_eq!(handshake().path(), b"/tmp/workmux_pipe_42_17");
    assert_eq!(
        handshake().wrapper_command(&shell),
        "sh -c 'echo ready > /tmp/workmux_pipe_42_17; exec '\\''/bin/zsh'\\'' -l'"
    );
    assert_eq!(
        handshake().script_content(&shell),
        "echo ready > /tmp/workmux_pipe_42_17; exec '/bin/zsh' -l"
    );
}

#[test]
fn the_pipe_wrapper_takes_the_escaped_shell_and_the_script_the_plain_one() {
    let shell = Shell::new("/opt/it's/sh", "ESCAPED");
    assert!(handshake().wrapper_command(&shell).ends_with("exec '\\''ESCAPED'\\'' -l'"));
    assert!(handshake().script_content(&shell).ends_with("exec '/opt/it's/sh' -l"));
}

#[test]
fn the_pipe_wrapper_quotes_the_script() {
    let shell = Shell::new("/bin/zsh", "/bin/zsh");
    let script = handshake().script_content(&shell).replace('\'', "'\\''");
    assert_eq!(handshake().wrapper_command(&shell), format!("sh -c '{}'", script));
}

#[test]
fn a_path_that_is_not_text_is_shown_with_replacements() {
    let request = PipeRequest::new(b"/t\xff", 42, Some(17));
    let handshake = UnixPipeHandshake::new(request, Ok(())).unwrap();
    assert_eq!(
        handshake.script_content(&Shell::new("/bin/sh", "/bin/sh")),
        "echo ready > /t\u{fffd}/workmux_pipe_42_17; exec '/bin/sh' -l"
    );
    assert_eq!(handshake.path(), b"/t\xff/workmux_pipe_42_17");
}

#[test]
fn a_signal_ends_the_waiting() {
    let wait = handshake().wait();
    assert_eq!(wait.path(), b"/tmp/workmux_pipe_42_17");
    assert_eq!(
        wait.action(),
        PipeAction::OpenPipe { read: true, write: false, nonblocking: true }
    );
    let wait = wait.step(PipeEvent::Opened).unwrap();
    assert_eq!(wait.action(), PipeAction::StartClock);
    let wait = wait.step(PipeEvent::ClockStarted).unwrap();
    assert_eq!(wait.action(), PipeAction::Poll { events: POLLIN, timeout_millis: 50 });
    let wait = wait.step(ready()).unwrap();
    assert_eq!(wait.action(), PipeAction::Read { max_bytes: 64 });
    let wait = wait.step(PipeEvent::WasRead { bytes: 6 }).unwrap();
    assert_eq!(wait.action(), PipeAction::RemovePipe);
    assert_eq!(wait.result(), None);
    let wait = wait.step(PipeEvent::Removed).unwrap();
    assert_eq!(wait.action(), PipeAction::Return);
    assert_eq!(wait.result(), Some(&Ok(())));
    assert_eq!(wait.path(), b"/tmp/workmux_pipe_42_17");
}

#[test]
fn a_pipe_that_does_not_open_is_an_error_and_is_removed() {
    let wait = run(vec![PipeEvent::OpenFailed { cause: text("ENOENT") }]);
    assert_eq!(wait.action(), PipeAction::RemovePipe);
    assert_eq!(wait.result(), None);
    let wait = wait.step(PipeEvent::Removed).unwrap();
    assert_eq!(wait.action(), PipeAction::Return);
    assert_eq!(
        wait.result(),
        Some(&Err(HandshakeError::PipeNotOpened { cause: text("ENOENT") }))
    );
}

#[test]
fn an_empty_read_is_no_signal() {
    for bytes in [0isize, -1] {
        let wait = run(vec![
            PipeEvent::Opened,
            PipeEvent::ClockStarted,
            ready(),
            PipeEvent::WasRead { bytes },
            PipeEvent::Removed,
        ]);
        assert_eq!(wait.result(), Some(&Err(HandshakeError::PipeClosed)));
    }
}

#[test]
fn only_what_was_asked_for_counts() {
    let polls = [
        PipeEvent::Polled { ret: 0, revents: 0 },
        PipeEvent::Polled { ret: 0, revents: POLLIN },
        PipeEvent::Polled { ret: -1, revents: POLLIN },
        PipeEvent::Polled { ret: 1, revents: POLLHUP },
    ];
    for poll in polls {
        let wait = run(vec![PipeEvent::Opened, PipeEvent::ClockStarted, poll]);
        assert_eq!(wait.action(), PipeAction::ReadClock);
    }
    let both = PipeEvent::Polled { ret: 1, revents: POLLIN | POLLHUP };
    let wait = run(vec![PipeEvent::Opened, PipeEvent::ClockStarted, both]);
    assert_eq!(wait.action(), PipeAction::Read { max_bytes: 64 });
}

#[test]
fn without_a_signal_the_pipe_is_polled_for_five_seconds() {
    let wait = run(vec![
        PipeEvent::Opened,
        PipeEvent::ClockStarted,
        quiet(),
        PipeEvent::Elapsed { nanos: 4_999_999_999 },
    ]);
    assert_eq!(wait.action(), PipeAction::Poll { events: POLLIN, timeout_millis: 50 });
    let wait = wait.step(quiet()).unwrap();
    let wait = wait.step(PipeEvent::Elapsed { nanos: 5_000_000_000 }).unwrap();
    assert_eq!(wait.action(), PipeAction::RemovePipe);
    let wait = wait.step(PipeEvent::Removed).unwrap();
    assert_eq!(wait.result(), Some(&Err(HandshakeError::TimedOut)));
}

#[test]
fn an_event_that_cannot_come_of_the_action_is_refused_by_the_pipe() {
    let wait = handshake().wait().step(PipeEvent::Removed).unwrap_err();
    assert_eq!(
        wait.action(),
        PipeAction::OpenPipe { read: true, write: false, nonblocking: true }
    );
    assert_eq!(wait.path(), b"/tmp/workmux_pipe_42_17");
}

#[test]
fn a_hundred_polls_are_the_most() {
    let mut wait = handshake().wait();
    let mut polls: u128 = 0;
    let mut events: usize = 0;
    let mut removals: usize = 0;
    loop {
        let event = match wait.action() {
            PipeAction::OpenPipe { .. } => PipeEvent::Opened,
            PipeAction::StartClock => PipeEvent::ClockStarted,
            PipeAction::Poll { .. } => {
                polls += 1;
                quiet()
            }
            PipeAction::Read { .. } => PipeEvent::WasRead { bytes: 0 },
            PipeAction::ReadClock => PipeEvent::Elapsed { nanos: polls * 50_000_000 },
            PipeAction::RemovePipe => {
                removals += 1;
                PipeEvent::Removed
            }
            PipeAction::Return => break,
        };
        wait = wait.step(event).unwrap();
        events += 1;
    }
    assert_eq!(wait.result(), Some(&Err(HandshakeError::TimedOut)));
    assert_eq!(polls, 100);
    assert_eq!(events, 203);
    assert_eq!(removals, 1);
}
