use pane_handshake::error::HandshakeError;
use pane_handshake::handshake::{PaneHandshake, Shell};
use pane_handshake::tmux::{ChannelLock, TmuxAction, TmuxEvent, TmuxHandshake, TmuxWait};

fn handshake() -> TmuxHandshake {
    TmuxHandshake::new(ChannelLock::new(42, Some(1_700_000_000_123_456_789)), Ok(())).unwrap()
}

fn run(events: Vec<TmuxEvent>) -> TmuxWait {
    let mut wait = handshake().wait();
    for event in events {
        wait = wait.step(event).unwrap();
    }
    wait
}

fn text(s: &str) -> String {
    s.to_string()
}

#[test]
fn the_channel_is_locked_first() {
    let lock = ChannelLock::new(42, Some(1_700_000_000_123_456_789));
    assert_eq!(
        lock.command(),
        ["tmux", "wait-for", "-L", "wm_ready_42_1700000000123456789"]
    );
    assert_eq!(ChannelLock::new(42, None).command()[3], "wm_ready_42_0");
}

#[test]
fn channels_of_other_moments_differ() {
    let one = ChannelLock::new(1, Some(23)).command();
    let other = ChannelLock::new(12, Some(3)).command();
    assert_eq!(one[3], "wm_ready_1_23");
    assert_eq!(other[3], "wm_ready_12_3");
}

#[test]
fn no_handshake_without_the_lock() {
    let failed = TmuxHandshake::new(ChannelLock::new(42, None), Err(text("no server")));
    assert_eq!(failed.unwrap_err(), HandshakeError::LockFailed { cause: text("no server") });
}

#[test]
fn the_wrapper_signals_and_becomes_the_shell() {
    let shell = Shell::new("/bin/zsh", "/bin/zsh");
    assert_eq!(
        handshake().wrapper_command(&shell),
        "sh -c \"stty -echo 2>/dev/null; tmux wait-for -U wm_ready_42_1700000000123456789; \
         stty echo 2>/dev/null; exec '/bin/zsh' -l\""
    );
    assert_eq!(
        handshake().script_content(&shell),
        "stty -echo 2>/dev/null; tmux wait-for -U wm_ready_42_1700000000123456789; \
         stty echo 2>/dev/null; exec '/bin/zsh' -l"
    );
}

#[test]
fn the_wrapper_takes_the_escaped_shell_and_the_script_the_plain_one() {
    let shell = Shell::new("/opt/it's/sh", "ESCAPED");
    assert_eq!(shell.path(), "/opt/it's/sh");
    assert_eq!(shell.escaped(), "ESCAPED");
    assert!(handshake().wrapper_command(&shell).ends_with("exec 'ESCAPED' -l\""));
    assert!(handshake().script_content(&shell).ends_with("exec '/opt/it's/sh' -l"));
}

#[test]
fn the_wrapper_quotes_the_script() {
    let shell = Shell::new("/bin/zsh", "/bin/zsh");
    let script = handshake().script_content(&shell);
    assert_eq!(handshake().wrapper_command(&shell), format!("sh -c \"{}\"", script));
    assert!(!script.contains(|c| matches!(c, '"' | '$' | '`' | '\\')));
}

#[test]
fn a_ready_shell_ends_the_waiting() {
    let wait = handshake().wait();
    assert_eq!(wait.action(), TmuxAction::SpawnLock);
    assert_eq!(
        wait.lock_command(),
        ["tmux", "wait-for", "-L", "wm_ready_42_1700000000123456789"]
    );
    let wait = wait.step(TmuxEvent::Spawned).unwrap();
    assert_eq!(wait.action(), TmuxAction::StartClock);
    let wait = wait.step(TmuxEvent::ClockStarted).unwrap();
    assert_eq!(wait.action(), TmuxAction::PollWaiter);
    let wait = wait.step(TmuxEvent::Exited { success: true }).unwrap();
    assert_eq!(wait.action(), TmuxAction::Unlock);
    assert_eq!(
        wait.unlock_command(),
        ["tmux", "wait-for", "-U", "wm_ready_42_1700000000123456789"]
    );
    assert_eq!(wait.result(), None);
    let wait = wait.step(TmuxEvent::Unlocked).unwrap();
    assert_eq!(wait.action(), TmuxAction::Return);
    assert_eq!(wait.result(), Some(&Ok(())));
}

#[test]
fn a_waiter_that_does_not_start_is_an_error_and_the_channel_is_unlocked() {
    for event in [TmuxEvent::Unlocked, TmuxEvent::UnlockFailed { cause: text("no server") }] {
        let wait = run(vec![TmuxEvent::SpawnFailed { cause: text("not found") }]);
        assert_eq!(wait.action(), TmuxAction::Unlock);
        assert_eq!(wait.result(), None);
        assert_eq!(
            wait.unlock_command(),
            ["tmux", "wait-for", "-U", "wm_ready_42_1700000000123456789"]
        );
        let wait = wait.step(event).unwrap();
        assert_eq!(wait.action(), TmuxAction::Return);
        assert_eq!(
            wait.result(),
            Some(&Err(HandshakeError::SpawnFailed { cause: text("not found") }))
        );
    }
}

#[test]
fn a_failed_cleanup_matters_where_the_shell_was_ready() {
    let wait = run(vec![
        TmuxEvent::Spawned,
        TmuxEvent::ClockStarted,
        TmuxEvent::Exited { success: true },
        TmuxEvent::UnlockFailed { cause: text("no server") },
    ]);
    assert_eq!(
        wait.result(),
        Some(&Err(HandshakeError::CleanupFailed { cause: text("no server") }))
    );
}

#[test]
fn a_failed_waiter_is_an_error_whatever_the_cleanup_does() {
    for event in [TmuxEvent::Unlocked, TmuxEvent::UnlockFailed { cause: text("no server") }] {
        let wait = run(vec![
            TmuxEvent::Spawned,
            TmuxEvent::ClockStarted,
            TmuxEvent::Exited { success: false },
        ]);
        assert_eq!(wait.action(), TmuxAction::Unlock);
        let wait = wait.step(event).unwrap();
        assert_eq!(wait.result(), Some(&Err(HandshakeError::WaiterFailed)));
    }
}

#[test]
fn a_running_waiter_is_looked_at_again() {
    let wait = run(vec![TmuxEvent::Spawned, TmuxEvent::ClockStarted, TmuxEvent::Running]);
    assert_eq!(wait.action(), TmuxAction::ReadClock);
    let wait = wait.step(TmuxEvent::Elapsed { nanos: 4_999_999_999 }).unwrap();
    assert_eq!(wait.action(), TmuxAction::Sleep { millis: 50 });
    let wait = wait.step(TmuxEvent::Slept).unwrap();
    assert_eq!(wait.action(), TmuxAction::PollWaiter);
}

#[test]
fn a_waiter_that_runs_too_long_is_killed_and_reaped() {
    let wait = run(vec![
        TmuxEvent::Spawned,
        TmuxEvent::ClockStarted,
        TmuxEvent::Running,
        TmuxEvent::Elapsed { nanos: 5_000_000_000 },
    ]);
    assert_eq!(wait.action(), TmuxAction::KillWaiter);
    let wait = wait.step(TmuxEvent::Killed).unwrap();
    assert_eq!(wait.action(), TmuxAction::ReapWaiter);
    let wait = wait.step(TmuxEvent::Reaped).unwrap();
    assert_eq!(wait.action(), TmuxAction::Unlock);
    let wait = wait.step(TmuxEvent::UnlockFailed { cause: text("no server") }).unwrap();
    assert_eq!(wait.result(), Some(&Err(HandshakeError::TimedOut)));
}

#[test]
fn a_waiter_that_cannot_be_looked_at_is_killed_and_reaped() {
    let wait = run(vec![
        TmuxEvent::Spawned,
        TmuxEvent::ClockStarted,
        TmuxEvent::PollFailed { cause: text("no child") },
    ]);
    assert_eq!(wait.action(), TmuxAction::KillWaiter);
    let wait = wait.step(TmuxEvent::Killed).unwrap();
    assert_eq!(wait.action(), TmuxAction::ReapWaiter);
    let wait = wait.step(TmuxEvent::Reaped).unwrap();
    let wait = wait.step(TmuxEvent::Unlocked).unwrap();
    assert_eq!(
        wait.result(),
        Some(&Err(HandshakeError::PollFailed { cause: text("no child") }))
    );
}

#[test]
fn an_event_that_cannot_come_of_the_action_is_refused() {
    let wait = handshake().wait().step(TmuxEvent::Unlocked).unwrap_err();
    assert_eq!(wait.action(), TmuxAction::SpawnLock);
    let over = run(vec![
        TmuxEvent::SpawnFailed { cause: text("not found") },
        TmuxEvent::Unlocked,
    ]);
    let over = over.step(TmuxEvent::Unlocked).unwrap_err();
    assert_eq!(over.action(), TmuxAction::Return);
}

#[test]
fn a_hundred_sleeps_are_the_most() {
    let mut wait = handshake().wait();
    let mut slept: u128 = 0;
    let mut events: usize = 0;
    let mut unlocks: usize = 0;
    loop {
        let event = match wait.action() {
            TmuxAction::SpawnLock => TmuxEvent::Spawned,
            TmuxAction::StartClock => TmuxEvent::ClockStarted,
            TmuxAction::PollWaiter => TmuxEvent::Running,
            TmuxAction::ReadClock => TmuxEvent::Elapsed { nanos: slept * 50_000_000 },
            TmuxAction::Sleep { .. } => {
                slept += 1;
                TmuxEvent::Slept
            }
            TmuxAction::KillWaiter => TmuxEvent::Killed,
            TmuxAction::ReapWaiter => TmuxEvent::Reaped,
            TmuxAction::Unlock => {
                unlocks += 1;
                TmuxEvent::Unlocked
            }
            TmuxAction::Return => break,
        };
        wait = wait.step(event).unwrap();
        events += 1;
    }
    assert_eq!(wait.result(), Some(&Err(HandshakeError::TimedOut)));
    assert_eq!(slept, 100);
    assert_eq!(events, 307);
    assert_eq!(unlocks, 1);
}

struct Immediate;

impl PaneHandshake for Immediate {
    type Wait = bool;

    fn wrapper_command(&self, shell: &Shell) -> String {
        format!("exec '{}'", shell.escaped())
    }

    fn wait(self) -> bool {
        true
    }
}

#[test]
fn without_a_script_of_its_own_a_handshake_gives_its_wrapper() {
    let shell = Shell::new("/bin/sh", "/bin/sh");
    assert_eq!(Immediate.script_content(&shell), "exec '/bin/sh'");
    assert!(Immediate.wait());
}
