//! What holds of every waiting for a prompt.

use vstd::prelude::*;

use crate::prompt_wait::{PromptAction, PromptEvent, PromptPhase, PROMPT_WAIT_TIMEOUT_SECS};

verus! {

/// The phase in which a waiting is after the events, where each of them came
/// of the action that was due.
pub open spec fn prompt_run(events: Seq<PromptEvent>) -> Option<PromptPhase>
    decreases events.len(),
{
    if events.len() == 0 {
        Some(PromptPhase::Starting)
    } else {
        match prompt_run(events.drop_last()) {
            Some(phase) => if crate::prompt_wait::prompt_answers(phase.action(), events.last()) {
                Some(crate::prompt_wait::prompt_next(events.last()))
            } else {
                None
            },
            None => None,
        }
    }
}

/// The action that the event at an index came of.
pub open spec fn prompt_action_at(events: Seq<PromptEvent>, i: int) -> PromptAction {
    prompt_run(events.take(i))->0.action()
}

/// The event is a capture that shows a prompt.
pub open spec fn prompt_sighted(event: PromptEvent) -> bool {
    event is Captured && crate::prompt_wait::prompt_captured(event->content)
}

/// The event is a reading of the clock at or over the limit.
pub open spec fn prompt_overdue(event: PromptEvent) -> bool {
    event is Elapsed && crate::clock::expired(event->nanos, PROMPT_WAIT_TIMEOUT_SECS)
}

/// How often the waiting slept.
pub open spec fn prompt_sleeps(events: Seq<PromptEvent>) -> nat
    decreases events.len(),
{
    if events.len() == 0 {
        0
    } else {
        prompt_sleeps(events.drop_last()) + if events.last() is Slept {
            1nat
        } else {
            0nat
        }
    }
}

/// The clock never shows less than the time that was slept.
pub open spec fn prompt_clock_keeps_pace(events: Seq<PromptEvent>) -> bool {
    forall|i: int| #[trigger]
        events[i] is Elapsed && 0 <= i < events.len() ==> events[i]->nanos >= prompt_sleeps(
            events.take(i),
        ) * crate::prompt_wait::PROMPT_POLL_INTERVAL_MS * crate::clock::NANOS_PER_MILLI
}

/// Every beginning of a waiting is one, and the event after it came of the
/// action that was due.
pub proof fn prompt_run_goes_event_by_event(events: Seq<PromptEvent>, i: int)
    requires
        prompt_run(events) is Some,
        0 <= i < events.len(),
    ensures
        prompt_run(events.take(i)) is Some,
        crate::prompt_wait::prompt_answers(prompt_action_at(events, i), events[i]),
        prompt_run(events.take(i + 1)) == Some(crate::prompt_wait::prompt_next(events[i])),
    decreases events.len(),
{
    let n = events.len() as int;
    assert(events.take(n) =~= events);
    assert(events.take(n - 1) =~= events.drop_last());
    if i < n - 1 {
        prompt_run_goes_event_by_event(events.drop_last(), i);
        assert(events.drop_last().take(i) =~= events.take(i));
        assert(events.drop_last().take(i + 1) =~= events.take(i + 1));
    }
}

/// A waiting that takes in one more event goes on as a single step from its
/// phase does: the event is taken in if and only if it can come of what is due.
pub proof fn prompt_run_grows_by_steps(events: Seq<PromptEvent>, event: PromptEvent)
    requires
        prompt_run(events) is Some,
    ensures
        ({
            let phase = prompt_run(events)->0;
            prompt_run(events.push(event)) == if crate::prompt_wait::prompt_answers(phase.action(), event) {
                Some(crate::prompt_wait::prompt_next(event))
            } else {
                None::<PromptPhase>
            }
        }),
{
    assert(events.push(event).drop_last() =~= events);
}

/// As long as the waiting is not over, something can come of what is due.
pub proof fn prompt_is_never_stuck(phase: PromptPhase)
    ensures
        phase !is Finished <==> exists|event: PromptEvent|
            crate::prompt_wait::prompt_answers(phase.action(), event),
{
    let event = match phase {
        PromptPhase::Starting => PromptEvent::ClockStarted,
        PromptPhase::Capturing => PromptEvent::Captured { content: None },
        PromptPhase::Timing => PromptEvent::Elapsed { nanos: 0 },
        _ => PromptEvent::Slept,
    };
    if phase !is Finished {
        assert(crate::prompt_wait::prompt_answers(phase.action(), event));
    }
}

/// A waiting is over if and only if its last event shows a prompt or says that
/// the time is over, and detects a prompt if and only if it is the former. No
/// earlier event shows a prompt, and none says that the time is over.
pub proof fn prompt_outcome_is_what_happened(events: Seq<PromptEvent>)
    requires
        prompt_run(events) is Some,
        events.len() > 0,
    ensures
        prompt_run(events)->0 is Finished <==> prompt_sighted(events.last()) || prompt_overdue(
            events.last(),
        ),
        prompt_run(events)->0 is Finished ==> prompt_run(events)->0->detected == prompt_sighted(
            events.last(),
        ),
        forall|i: int|
            0 <= i < events.len() - 1 ==> !prompt_sighted(#[trigger] events[i]) && !prompt_overdue(
                events[i],
            ),
{
    let n = events.len() as int;
    assert forall|i: int| 0 <= i < n - 1 implies !prompt_sighted(#[trigger] events[i])
        && !prompt_overdue(events[i]) by {
        prompt_run_goes_event_by_event(events, i);
        prompt_run_goes_event_by_event(events, i + 1);
    }
}

/// What is due follows from what happened last. In particular a reading of the
/// clock under ten seconds is followed by a sleep, and only one of ten seconds or
/// more by going on without a prompt; and a capture ends the waiting exactly
/// where the captured text, without its escape codes, ends in a prompt.
pub proof fn prompt_last_event_says_what_is_due(events: Seq<PromptEvent>)
    requires
        prompt_run(events) is Some,
    ensures
        ({
            let due = prompt_run(events)->0.action();
            let last = events.last();
            let capture = PromptAction::CapturePane { lines: 5 };
            let seen = last->content is Some && crate::prompt::prompt_at_end(
                crate::prompt::without_ansi_codes(last->content->0@),
            );
            &&& events.len() == 0 ==> due == PromptAction::StartClock
            &&& events.len() > 0 && (last is ClockStarted || last is Slept) ==> due == capture
            &&& events.len() > 0 && last is Captured && seen ==> due == PromptAction::Proceed
            &&& events.len() > 0 && last is Captured && !seen ==> due == PromptAction::ReadClock
            &&& events.len() > 0 && last is Elapsed && last->nanos < 10_000_000_000 ==> due == (
            PromptAction::Sleep { millis: 50 })
            &&& events.len() > 0 && last is Elapsed && last->nanos >= 10_000_000_000 ==> due
                == PromptAction::Proceed
        }),
{
}

/// Whatever can come of the action that is due is taken in, and nothing else.
pub proof fn prompt_takes_in_every_answer(events: Seq<PromptEvent>, event: PromptEvent)
    requires
        prompt_run(events) is Some,
    ensures
        prompt_run(events.push(event)) is Some <==> match prompt_run(events)->0.action() {
            PromptAction::StartClock => event is ClockStarted,
            PromptAction::CapturePane { .. } => event is Captured,
            PromptAction::ReadClock => event is Elapsed,
            PromptAction::Sleep { .. } => event is Slept,
            PromptAction::Proceed => false,
        },
{
    prompt_run_grows_by_steps(events, event);
}

/// Every outcome has its history, told in the events alone: a prompt is detected
/// exactly where the last capture shows one, and the waiting goes on without one
/// exactly where the clock was last read at ten seconds or more.
pub proof fn prompt_every_outcome_has_its_history(events: Seq<PromptEvent>)
    requires
        prompt_run(events) is Some,
        events.len() > 0,
    ensures
        ({
            let last = events.last();
            let phase = prompt_run(events)->0;
            &&& phase == (PromptPhase::Finished { detected: true }) <==> last is Captured
                && last->content is Some && crate::prompt::prompt_at_end(
                crate::prompt::without_ansi_codes(last->content->0@),
            )
            &&& phase == (PromptPhase::Finished { detected: false }) <==> last is Elapsed
                && last->nanos >= 10_000_000_000
        }),
{
}

/// No waiting goes on without a prompt before ten seconds are over: a reading
/// under that is followed by a sleep of fifty milliseconds, and the sleep by
/// another look at five lines.
pub proof fn prompt_looks_again_before_the_limit(events: Seq<PromptEvent>, i: int)
    requires
        prompt_run(events) is Some,
        0 <= i < events.len() - 2,
        events[i] is Elapsed,
        events[i]->nanos < 10_000_000_000,
    ensures
        prompt_action_at(events, i + 1) == (PromptAction::Sleep { millis: 50 }),
        events[i + 1] is Slept,
        prompt_action_at(events, i + 2) == (PromptAction::CapturePane { lines: 5 }),
        events[i + 2] is Captured,
{
    prompt_run_goes_event_by_event(events, i);
    prompt_run_goes_event_by_event(events, i + 1);
    prompt_run_goes_event_by_event(events, i + 2);
}

/// How many events there are in each phase, counted by the sleeps.
proof fn prompt_events_per_sleep(events: Seq<PromptEvent>)
    requires
        prompt_run(events) is Some,
        prompt_clock_keeps_pace(events),
    ensures
        prompt_sleeps(events) <= 200,
        ({
            let n = events.len() as int;
            let rounds = 3 * prompt_sleeps(events);
            match prompt_run(events)->0 {
                PromptPhase::Starting => n == 0,
                PromptPhase::Capturing => n == 1 + rounds,
                PromptPhase::Timing => n == 2 + rounds,
                PromptPhase::Sleeping => n == 3 + rounds && prompt_sleeps(events) < 200,
                PromptPhase::Finished { .. } => n <= 3 + rounds,
            }
        }),
    decreases events.len(),
{
    let n = events.len() as int;
    if n > 0 {
        let before = events.drop_last();
        assert(before =~= events.take(n - 1));
        assert forall|i: int| #[trigger]
            before[i] is Elapsed && 0 <= i < before.len() implies before[i]->nanos
            >= prompt_sleeps(before.take(i)) * crate::prompt_wait::PROMPT_POLL_INTERVAL_MS
            * crate::clock::NANOS_PER_MILLI by {
            assert(before[i] == events[i]);
            assert(before.take(i) =~= events.take(i));
        }
        prompt_events_per_sleep(before);
        assert(events.last() == events[n - 1]);
    }
}

/// Where every sleep takes its time, no waiting goes on forever: it sleeps
/// between its looks two hundred times at most.
pub proof fn prompt_wait_is_bounded(events: Seq<PromptEvent>)
    requires
        prompt_run(events) is Some,
        prompt_clock_keeps_pace(events),
    ensures
        prompt_sleeps(events) <= 200,
        events.len() <= 603,
{
    prompt_events_per_sleep(events);
}

} // verus!
