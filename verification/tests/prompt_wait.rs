use pane_handshake::prompt_wait::{wait_for_prompt, PromptAction, PromptEvent, PromptWait};

fn captured(content: &str) -> PromptEvent {
    PromptEvent::Captured { content: Some(content.to_string()) }
}

fn run(events: Vec<PromptEvent>) -> PromptWait {
    let mut wait = wait_for_prompt("%7");
    for event in events {
        wait = wait.step(event).unwrap();
    }
    wait
}

#[test]
fn the_pane_is_captured_first() {
    let wait = wait_for_prompt("%7");
    assert_eq!(wait.pane_id(), "%7");
    assert_eq!(wait.action(), PromptAction::StartClock);
    assert_eq!(wait.detected(), None);
    let wait = wait.step(PromptEvent::ClockStarted).unwrap();
    assert_eq!(wait.pane_id(), "%7");
    assert_eq!(wait.action(), PromptAction::CapturePane { lines: 5 });
}

#[test]
fn a_visible_prompt_is_detected_at_once() {
    let wait = run(vec![PromptEvent::ClockStarted, captured("user@host \x1b[33m❯\x1b[0m\n\n")]);
    assert_eq!(wait.action(), PromptAction::Proceed);
    assert_eq!(wait.detected(), Some(true));
}

#[test]
fn without_a_prompt_the_clock_is_read() {
    for event in [captured("Loading direnv..."), PromptEvent::Captured { content: None }] {
        let wait = run(vec![PromptEvent::ClockStarted, event]);
        assert_eq!(wait.action(), PromptAction::ReadClock);
        let wait = wait.step(PromptEvent::Elapsed { nanos: 9_999_999_999 }).unwrap();
        assert_eq!(wait.action(), PromptAction::Sleep { millis: 50 });
        let wait = wait.step(PromptEvent::Slept).unwrap();
        assert_eq!(wait.action(), PromptAction::CapturePane { lines: 5 });
        assert_eq!(wait.detected(), None);
    }
}

#[test]
fn after_ten_seconds_the_caller_goes_on() {
    let wait = run(vec![
        PromptEvent::ClockStarted,
        captured(""),
        PromptEvent::Elapsed { nanos: 10_000_000_000 },
    ]);
    assert_eq!(wait.action(), PromptAction::Proceed);
    assert_eq!(wait.detected(), Some(false));
}

#[test]
fn a_late_capture_still_counts() {
    let wait = run(vec![
        PromptEvent::ClockStarted,
        captured("..."),
        PromptEvent::Elapsed { nanos: 9_990_000_000 },
        PromptEvent::Slept,
        captured("$ "),
    ]);
    assert_eq!(wait.detected(), Some(true));
}

#[test]
fn an_event_that_answers_nothing_is_refused() {
    let wait = wait_for_prompt("%7").step(PromptEvent::Slept).unwrap_err();
    assert_eq!(wait.action(), PromptAction::StartClock);
    assert_eq!(wait.pane_id(), "%7");
    let over = run(vec![PromptEvent::ClockStarted, captured("$")]);
    let over = over.step(PromptEvent::ClockStarted).unwrap_err();
    assert_eq!(over.detected(), Some(true));
}

#[test]
fn two_hundred_sleeps_are_the_most() {
    let mut wait = wait_for_prompt("%7").step(PromptEvent::ClockStarted).unwrap();
    let mut slept: u128 = 0;
    let mut events: usize = 1;
    loop {
        let event = match wait.action() {
            PromptAction::CapturePane { .. } => captured("..."),
            PromptAction::ReadClock => PromptEvent::Elapsed { nanos: slept * 50_000_000 },
            PromptAction::Sleep { .. } => {
                slept += 1;
                PromptEvent::Slept
            }
            _ => break,
        };
        wait = wait.step(event).unwrap();
        events += 1;
    }
    assert_eq!(wait.detected(), Some(false));
    assert_eq!(slept, 200);
    assert_eq!(events, 603);
}
