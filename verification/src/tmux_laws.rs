//! What holds of every handshake through tmux, from its channel to its result.

use vstd::prelude::*;

use crate::clock::HANDSHAKE_TIMEOUT_SECS;
use crate::error::HandshakeError;
use crate::tmux::{TmuxAction, TmuxEvent, TmuxPhase};

verus! {

/// The phase in which a waiting is after the events, where each of them came
/// of the action that was due.
pub open spec fn tmux_run(events: Seq<TmuxEvent>) -> Option<TmuxPhase>
    decreases events.len(),
{
    if events.len() == 0 {
        Some(TmuxPhase::Spawning)
    } else {
        match tmux_run(events.drop_last()) {
            Some(phase) => if crate::tmux::tmux_answers(phase.action(), events.last()) {
                Some(crate::tmux::tmux_next(phase, events.last()))
            } else {
                None
            },
            None => None,
        }
    }
}

/// The action that the event at an index came of.
pub open spec fn tmux_action_at(events: Seq<TmuxEvent>, i: int) -> TmuxAction {
    tmux_run(events.take(i))->0.action()
}

/// The result, read off the last events.
pub open spec fn tmux_verdict(events: Seq<TmuxEvent>) -> Result<(), HandshakeError> {
    let n = events.len() as int;
    if events[n - 2] is SpawnFailed {
        Err(HandshakeError::SpawnFailed { cause: events[n - 2]->SpawnFailed_cause })
    } else if events[n - 2] == (TmuxEvent::Exited { success: true }) {
        if events.last() is Unlocked {
            Ok(())
        } else {
            Err(HandshakeError::CleanupFailed { cause: events.last()->UnlockFailed_cause })
        }
    } else if events[n - 2] is Exited {
        Err(HandshakeError::WaiterFailed)
    } else if events[n - 4] is PollFailed {
        Err(HandshakeError::PollFailed { cause: events[n - 4]->PollFailed_cause })
    } else {
        Err(HandshakeError::TimedOut)
    }
}

/// How often the waiting slept.
pub open spec fn tmux_sleeps(events: Seq<TmuxEvent>) -> nat
    decreases events.len(),
{
    if events.len() == 0 {
        0
    } else {
        tmux_sleeps(events.drop_last()) + if events.last() is Slept {
            1nat
        } else {
            0nat
        }
    }
}

/// The clock never shows less than the time that was slept.
pub open spec fn tmux_clock_keeps_pace(events: Seq<TmuxEvent>) -> bool {
    forall|i: int| #[trigger]
        events[i] is Elapsed && 0 <= i < events.len() ==> events[i]->Elapsed_nanos >= tmux_sleeps(
            events.take(i),
        ) * crate::tmux::WAITER_POLL_INTERVAL_MS * crate::clock::NANOS_PER_MILLI
}

/// Every beginning of a waiting is one, and the event after it came of the
/// action that was due.
pub proof fn tmux_run_goes_event_by_event(events: Seq<TmuxEvent>, i: int)
    requires
        tmux_run(events) is Some,
        0 <= i < events.len(),
    ensures
        tmux_run(events.take(i)) is Some,
        crate::tmux::tmux_answers(tmux_action_at(events, i), events[i]),
        tmux_run(events.take(i + 1)) == Some(
            crate::tmux::tmux_next(tmux_run(events.take(i))->0, events[i]),
        ),
    decreases events.len(),
{
    let n = events.len() as int;
    assert(events.take(n) =~= events);
    assert(events.take(n - 1) =~= events.drop_last());
    if i < n - 1 {
        tmux_run_goes_event_by_event(events.drop_last(), i);
        assert(events.drop_last().take(i) =~= events.take(i));
        assert(events.drop_last().take(i + 1) =~= events.take(i + 1));
    }
}

/// A waiting that takes in one more event goes on as a single step from its
/// phase does: the event is taken in if and only if it can come of what is due.
pub proof fn tmux_run_grows_by_steps(events: Seq<TmuxEvent>, event: TmuxEvent)
    requires
        tmux_run(events) is Some,
    ensures
        ({
            let phase = tmux_run(events)->0;
            tmux_run(events.push(event)) == if crate::tmux::tmux_answers(phase.action(), event) {
                Some(crate::tmux::tmux_next(phase, event))
            } else {
                None::<TmuxPhase>
            }
        }),
{
    assert(events.push(event).drop_last() =~= events);
}

/// As long as the waiting is not over, something can come of what is due.
pub proof fn tmux_is_never_stuck(phase: TmuxPhase)
    ensures
        phase !is Finished <==> exists|event: TmuxEvent|
            crate::tmux::tmux_answers(phase.action(), event),
{
    let event = match phase {
        TmuxPhase::Spawning => TmuxEvent::Spawned,
        TmuxPhase::Starting => TmuxEvent::ClockStarted,
        TmuxPhase::Polling => TmuxEvent::Running,
        TmuxPhase::Timing => TmuxEvent::Elapsed { nanos: 0 },
        TmuxPhase::Sleeping => TmuxEvent::Slept,
        TmuxPhase::Killing { .. } => TmuxEvent::Killed,
        TmuxPhase::Reaping { .. } => TmuxEvent::Reaped,
        _ => TmuxEvent::Unlocked,
    };
    if phase !is Finished {
        assert(crate::tmux::tmux_answers(phase.action(), event));
    }
}

/// The result of a waiting is read off its last events: the shell was ready if
/// and only if the waiting process ended well and the channel was unlocked
/// then, and each error has its one cause. A waiting that timed out had a
/// reading of the clock at or over the limit.
pub proof fn tmux_result_is_what_happened(events: Seq<TmuxEvent>)
    requires
        tmux_run(events) matches Some(TmuxPhase::Finished { .. }),
    ensures
        tmux_run(events) == Some(TmuxPhase::Finished { result: tmux_verdict(events) }),
        tmux_verdict(events) == Err::<(), HandshakeError>(HandshakeError::TimedOut) ==> {
            let n = events.len() as int;
            n >= 4 && events[n - 4] is Elapsed && crate::clock::expired(
                events[n - 4]->Elapsed_nanos,
                HANDSHAKE_TIMEOUT_SECS,
            )
        },
{
    let n = events.len() as int;
    reveal_with_fuel(tmux_run, 6);
    let e1 = events.drop_last();
    let e2 = e1.drop_last();
    let e3 = e2.drop_last();
    assert(events.len() > 0);
    assert(tmux_run(e1)->0 is Unlocking);
    assert(e1.last() == events[n - 2]);
    if events[n - 2] !is SpawnFailed && events[n - 2] !is Exited {
        assert(tmux_run(e2)->0 is Reaping);
        assert(e2.last() == events[n - 3]);
        assert(tmux_run(e3)->0 is Killing);
        assert(e3.last() == events[n - 4]);
    }
}

/// Cleanup happens exactly once: every waiting ends by unlocking the channel,
/// and unlocks it at no other time.
pub proof fn tmux_unlocks_exactly_once(events: Seq<TmuxEvent>)
    requires
        tmux_run(events) matches Some(TmuxPhase::Finished { .. }),
    ensures
        tmux_action_at(events, events.len() - 1) == TmuxAction::Unlock,
        forall|i: int|
            0 <= i < events.len() - 1 ==> #[trigger] tmux_action_at(events, i)
                != TmuxAction::Unlock,
{
    let n = events.len() as int;
    tmux_run_goes_event_by_event(events, n - 1);
    assert(events.take(n) =~= events);
    assert forall|i: int| 0 <= i < n - 1 implies #[trigger] tmux_action_at(events, i)
        != TmuxAction::Unlock by {
        tmux_run_goes_event_by_event(events, i);
        tmux_run_goes_event_by_event(events, i + 1);
    }
}

/// The process is started first, and only once.
pub proof fn tmux_spawns_exactly_once(events: Seq<TmuxEvent>, i: int)
    requires
        tmux_run(events) is Some,
        0 <= i < events.len(),
    ensures
        tmux_action_at(events, i) == TmuxAction::SpawnLock <==> i == 0,
{
    tmux_run_goes_event_by_event(events, i);
    assert(events.take(i).len() == i);
}

/// A process is killed if and only if it was not seen to end: because it could
/// not be looked at, or because the time was over. It is reaped right after,
/// and the channel is unlocked right after that.
pub proof fn tmux_kills_what_it_gives_up(events: Seq<TmuxEvent>, i: int)
    requires
        tmux_run(events) matches Some(TmuxPhase::Finished { .. }),
        0 <= i < events.len(),
    ensures
        tmux_action_at(events, i) == TmuxAction::KillWaiter <==> {
            let result = tmux_run(events)->0->Finished_result;
            &&& i == events.len() - 3
            &&& result is Err
            &&& result->Err_0 is TimedOut || result->Err_0 is PollFailed
        },
        tmux_action_at(events, i) == TmuxAction::KillWaiter ==> {
            &&& tmux_action_at(events, i + 1) == TmuxAction::ReapWaiter
            &&& tmux_action_at(events, i + 2) == TmuxAction::Unlock
        },
{
    let n = events.len() as int;
    assert(events.take(n) =~= events);
    tmux_run_goes_event_by_event(events, i);
    if i + 1 < n {
        tmux_run_goes_event_by_event(events, i + 1);
    }
    if i + 2 < n {
        tmux_run_goes_event_by_event(events, i + 2);
    }
    if i + 3 < n {
        tmux_run_goes_event_by_event(events, i + 3);
    }
    if i > 0 {
        tmux_run_goes_event_by_event(events, i - 1);
    }
    tmux_result_is_what_happened(events);
    if n >= 4 {
        tmux_run_goes_event_by_event(events, n - 4);
    }
    if i == n - 3 && n >= 4 {
        tmux_run_goes_event_by_event(events, n - 1);
        tmux_run_goes_event_by_event(events, n - 2);
    }
}

/// What is due follows from what happened last. In particular a reading of the
/// clock under five seconds is followed by a sleep, and only one of five seconds
/// or more by giving up.
pub proof fn tmux_last_event_says_what_is_due(events: Seq<TmuxEvent>)
    requires
        tmux_run(events) is Some,
    ensures
        ({
            let due = tmux_run(events)->0.action();
            let last = events.last();
            &&& events.len() == 0 ==> due == TmuxAction::SpawnLock
            &&& events.len() > 0 && last is Spawned ==> due == TmuxAction::StartClock
            &&& events.len() > 0 && (last is ClockStarted || last is Slept) ==> due
                == TmuxAction::PollWaiter
            &&& events.len() > 0 && last is Running ==> due == TmuxAction::ReadClock
            &&& events.len() > 0 && last is Elapsed && last->Elapsed_nanos < 5_000_000_000 ==> due
                == (TmuxAction::Sleep { millis: 50 })
            &&& events.len() > 0 && last is Elapsed && last->Elapsed_nanos >= 5_000_000_000 ==> due
                == TmuxAction::KillWaiter
            &&& events.len() > 0 && last is PollFailed ==> due == TmuxAction::KillWaiter
            &&& events.len() > 0 && last is Killed ==> due == TmuxAction::ReapWaiter
            &&& events.len() > 0 && (last is SpawnFailed || last is Exited || last is Reaped)
                ==> due == TmuxAction::Unlock
            &&& events.len() > 0 && (last is Unlocked || last is UnlockFailed) ==> due
                == TmuxAction::Return
        }),
{
}

/// Whatever can come of the action that is due is taken in, and nothing else.
pub proof fn tmux_takes_in_every_answer(events: Seq<TmuxEvent>, event: TmuxEvent)
    requires
        tmux_run(events) is Some,
    ensures
        tmux_run(events.push(event)) is Some <==> match tmux_run(events)->0.action() {
            TmuxAction::SpawnLock => event is Spawned || event is SpawnFailed,
            TmuxAction::StartClock => event is ClockStarted,
            TmuxAction::PollWaiter => event is Running || event is Exited || event is PollFailed,
            TmuxAction::ReadClock => event is Elapsed,
            TmuxAction::Sleep { .. } => event is Slept,
            TmuxAction::KillWaiter => event is Killed,
            TmuxAction::ReapWaiter => event is Reaped,
            TmuxAction::Unlock => event is Unlocked || event is UnlockFailed,
            TmuxAction::Return => false,
        },
{
    tmux_run_grows_by_steps(events, event);
}

/// The waiting is over exactly when an attempt to unlock the channel has been
/// reported.
pub proof fn tmux_is_over_once_unlocked(events: Seq<TmuxEvent>)
    requires
        tmux_run(events) is Some,
        events.len() > 0,
    ensures
        tmux_run(events)->0 is Finished <==> events.last() is Unlocked || events.last()
            is UnlockFailed,
{
}

/// Every result has its history, told in the events alone: the shell is ready
/// exactly where the waiting process ended well and the channel was unlocked
/// then; a waiting times out exactly where it gave up at a reading of five
/// seconds or more; and each other error, with its cause, comes exactly where
/// the event that names it happened.
pub proof fn tmux_every_result_has_its_history(events: Seq<TmuxEvent>)
    requires
        tmux_run(events) matches Some(TmuxPhase::Finished { .. }),
    ensures
        ({
            let n = events.len() as int;
            let result = tmux_run(events)->0->Finished_result;
            let unlocked = events[n - 1] is Unlocked;
            let ready = events[n - 2] == (TmuxEvent::Exited { success: true });
            let killed = n >= 4 && events[n - 2] is Reaped && events[n - 3] is Killed;
            &&& n >= 2
            &&& result is Ok <==> ready && unlocked
            &&& (result is Err && result->Err_0 is CleanupFailed) <==> ready && !unlocked
            &&& ready && !unlocked ==> result->Err_0->CleanupFailed_cause == events[n
                - 1]->UnlockFailed_cause
            &&& (result is Err && result->Err_0 is WaiterFailed) <==> events[n - 2] == (
            TmuxEvent::Exited { success: false })
            &&& (result is Err && result->Err_0 is SpawnFailed) <==> events[n - 2] is SpawnFailed
            &&& events[n - 2] is SpawnFailed ==> result->Err_0->SpawnFailed_cause == events[n
                - 2]->SpawnFailed_cause
            &&& (result is Err && result->Err_0 is PollFailed) <==> killed && events[n - 4]
                is PollFailed
            &&& killed && events[n - 4] is PollFailed ==> result->Err_0->PollFailed_cause
                == events[n - 4]->PollFailed_cause
            &&& (result is Err && result->Err_0 is TimedOut) <==> killed && events[n - 4]
                is Elapsed
            &&& killed && events[n - 4] is Elapsed ==> events[n - 4]->Elapsed_nanos
                >= 5_000_000_000
        }),
{
    let n = events.len() as int;
    reveal_with_fuel(tmux_run, 6);
    let e1 = events.drop_last();
    let e2 = e1.drop_last();
    let e3 = e2.drop_last();
    assert(events.len() > 0);
    assert(tmux_run(e1)->0 is Unlocking);
    assert(e1.last() == events[n - 2]);
    if events[n - 2] is Reaped {
        assert(tmux_run(e2)->0 is Reaping);
        assert(e2.last() == events[n - 3]);
        assert(tmux_run(e3)->0 is Killing);
        assert(e3.last() == events[n - 4]);
    }
}

/// No waiting gives up before five seconds are over: a reading under that is
/// followed by a sleep of fifty milliseconds, and the sleep by another look.
pub proof fn tmux_looks_again_before_the_limit(events: Seq<TmuxEvent>, i: int)
    requires
        tmux_run(events) is Some,
        0 <= i < events.len() - 2,
        events[i] is Elapsed,
        events[i]->Elapsed_nanos < 5_000_000_000,
    ensures
        tmux_action_at(events, i + 1) == (TmuxAction::Sleep { millis: 50 }),
        events[i + 1] is Slept,
        tmux_action_at(events, i + 2) == TmuxAction::PollWaiter,
        events[i + 2] is Running || events[i + 2] is Exited || events[i + 2] is PollFailed,
{
    tmux_run_goes_event_by_event(events, i);
    tmux_run_goes_event_by_event(events, i + 1);
    tmux_run_goes_event_by_event(events, i + 2);
}

/// Once the clock has been read at or over the limit, the waiting neither
/// looks nor sleeps again: it is over after three more events.
pub proof fn tmux_never_outstays_the_limit(events: Seq<TmuxEvent>, i: int)
    requires
        tmux_run(events) is Some,
        0 <= i < events.len(),
        events[i] is Elapsed,
        crate::clock::expired(events[i]->Elapsed_nanos, HANDSHAKE_TIMEOUT_SECS),
    ensures
        events.len() <= i + 4,
        events.len() == i + 4 ==> tmux_run(events) matches Some(
            TmuxPhase::Finished { result: Err(HandshakeError::TimedOut) },
        ),
{
    let n = events.len() as int;
    assert(events.take(n) =~= events);
    tmux_run_goes_event_by_event(events, i);
    if i + 1 < n {
        tmux_run_goes_event_by_event(events, i + 1);
    }
    if i + 2 < n {
        tmux_run_goes_event_by_event(events, i + 2);
    }
    if i + 3 < n {
        tmux_run_goes_event_by_event(events, i + 3);
    }
    if i + 4 < n {
        tmux_run_goes_event_by_event(events, i + 4);
    }
}

/// How many events there are in each phase, counted by the sleeps.
proof fn tmux_events_per_sleep(events: Seq<TmuxEvent>)
    requires
        tmux_run(events) is Some,
        tmux_clock_keeps_pace(events),
    ensures
        tmux_sleeps(events) <= 100,
        ({
            let n = events.len() as int;
            let rounds = 3 * tmux_sleeps(events);
            match tmux_run(events)->0 {
                TmuxPhase::Spawning => n == 0,
                TmuxPhase::Starting => n == 1 && rounds == 0,
                TmuxPhase::Polling => n == 2 + rounds,
                TmuxPhase::Timing => n == 3 + rounds,
                TmuxPhase::Sleeping => n == 4 + rounds && tmux_sleeps(events) < 100,
                TmuxPhase::Killing { .. } => n <= 4 + rounds,
                TmuxPhase::Reaping { .. } => n <= 5 + rounds,
                TmuxPhase::Unlocking { .. } => n <= 6 + rounds,
                TmuxPhase::Finished { .. } => n <= 7 + rounds,
            }
        }),
    decreases events.len(),
{
    let n = events.len() as int;
    if n > 0 {
        let before = events.drop_last();
        assert(before =~= events.take(n - 1));
        assert forall|i: int| #[trigger]
            before[i] is Elapsed && 0 <= i < before.len() implies before[i]->Elapsed_nanos
            >= tmux_sleeps(before.take(i)) * crate::tmux::WAITER_POLL_INTERVAL_MS
            * crate::clock::NANOS_PER_MILLI by {
            assert(before[i] == events[i]);
            assert(before.take(i) =~= events.take(i));
        }
        tmux_events_per_sleep(before);
        assert(events.last() == events[n - 1]);
    }
}

/// Where every sleep takes its time, no waiting goes on forever: it
/// sleeps between its looks a hundred times at most.
pub proof fn tmux_wait_is_bounded(events: Seq<TmuxEvent>)
    requires
        tmux_run(events) is Some,
        tmux_clock_keeps_pace(events),
    ensures
        tmux_sleeps(events) <= 100,
        events.len() <= 307,
{
    tmux_events_per_sleep(events);
}

/// No two processes, and no two moments of one process, share a channel.
pub proof fn tmux_channels_are_unique(pid1: nat, nanos1: nat, pid2: nat, nanos2: nat)
    requires
        crate::tmux::channel_name(pid1, nanos1) == crate::tmux::channel_name(pid2, nanos2),
    ensures
        pid1 == pid2,
        nanos1 == nanos2,
{
    crate::text::numbered_is_injective("wm_ready_"@, pid1, nanos1, pid2, nanos2);
}

/// The words of a command are its strings, one for one and whole.
pub proof fn tmux_words_are_the_strings(command: Seq<String>)
    ensures
        crate::tmux::words(command).len() == command.len(),
        forall|i: int|
            0 <= i < command.len() ==> #[trigger] crate::tmux::words(command)[i] == command[i]@,
{
}

/// The channel is named after the process and the moment, both told whole.
pub proof fn tmux_channel_is_named_after_its_moment(pid: nat, nanos: nat)
    ensures
        crate::tmux::channel_name(pid, nanos) == "wm_ready_"@ + crate::text::decimal(pid) + "_"@
            + crate::text::decimal(nanos),
{
    reveal_strlit("_");
}

/// One channel throughout: the channel that is locked, the one that the script
/// unlocks and the one that the cleanup unlocks are the same, with its whole
/// name, and the script becomes the very shell that it was made for.
pub proof fn tmux_one_channel_throughout(channel: Seq<char>, shell: Seq<char>)
    ensures
        ({
            let lock = crate::tmux::lock_text(channel);
            let unlock = crate::tmux::unlock_text(channel);
            let script = crate::tmux::tmux_script(channel, shell);
            let head = "stty -echo 2>/dev/null; tmux wait-for -U "@;
            let middle = "; stty echo 2>/dev/null; exec '"@;
            let tail = "' -l"@;
            let a = head.len() as int;
            let b = a + channel.len();
            let c = b + middle.len();
            let d = c + shell.len();
            &&& lock.len() == 4 && unlock.len() == 4
            &&& lock[0] == "tmux"@ && lock[1] == "wait-for"@ && lock[2] == "-L"@
            &&& unlock[0] == "tmux"@ && unlock[1] == "wait-for"@ && unlock[2] == "-U"@
            &&& script.len() == d + tail.len()
            &&& script.take(a) == head
            &&& script.subrange(a, b) == lock[3]
            &&& script.subrange(a, b) == unlock[3]
            &&& script.subrange(a, b) == channel
            &&& script.subrange(b, c) == middle
            &&& script.subrange(c, d) == shell
            &&& script.skip(d) == tail
        }),
{
}

/// The wrapper command is `sh -c` and, in double quotes, the whole script for the
/// escaped shell.
pub proof fn tmux_wrapper_holds_the_script(channel: Seq<char>, escaped_shell: Seq<char>)
    ensures
        ({
            let wrapper = crate::tmux::tmux_wrapper(channel, escaped_shell);
            let script = crate::tmux::tmux_script(channel, escaped_shell);
            &&& wrapper.len() == 7 + script.len() + 1
            &&& wrapper.take(7) == "sh -c \""@
            &&& wrapper.subrange(7, 7 + script.len() as int) == script
            &&& wrapper.last() == '"'
        }),
{
    reveal_strlit("sh -c \"");
    reveal_strlit("\"");
}

/// Two channels are never confused: neither their locks, nor their unlocks, nor
/// the scripts or the wrappers for one shell are alike.
pub proof fn tmux_commands_tell_channels_apart(
    one: Seq<char>,
    other: Seq<char>,
    shell: Seq<char>,
)
    requires
        one != other,
    ensures
        crate::tmux::lock_text(one) != crate::tmux::lock_text(other),
        crate::tmux::unlock_text(one) != crate::tmux::unlock_text(other),
        crate::tmux::lock_text(one) != crate::tmux::unlock_text(one),
        crate::tmux::tmux_script(one, shell) != crate::tmux::tmux_script(other, shell),
        crate::tmux::tmux_wrapper(one, shell) != crate::tmux::tmux_wrapper(other, shell),
{
    tmux_one_channel_throughout(one, shell);
    tmux_one_channel_throughout(other, shell);
    reveal_strlit("-L");
    reveal_strlit("-U");
    assert("-L"@[1] != "-U"@[1]);
    let head = "stty -echo 2>/dev/null; tmux wait-for -U "@;
    let start = head.len() as int;
    let script1 = crate::tmux::tmux_script(one, shell);
    let script2 = crate::tmux::tmux_script(other, shell);
    if script1 == script2 {
        assert(one.len() == other.len());
        assert(script1.subrange(start, start + one.len()) == one);
    }
    tmux_wrapper_holds_the_script(one, shell);
    tmux_wrapper_holds_the_script(other, shell);
}

/// A text that a POSIX shell reads between double quotes as it stands.
pub open spec fn plain_in_double_quotes(text: Seq<char>) -> bool {
    forall|i: int|
        0 <= i < text.len() ==> {
            let c = #[trigger] text[i];
            c != '"' && c != '$' && c != '`' && c != '\\'
        }
}

/// The argument of `sh -c` in the wrapper command is the script that
/// `script_content` gives for the escaped shell. It stands in double quotes,
/// and on a channel of this library nothing in it but the shell can have a
/// meaning of its own there.
pub proof fn tmux_wrapper_quotes_the_script(pid: nat, nanos: nat, escaped_shell: Seq<char>)
    ensures
        crate::tmux::tmux_wrapper(crate::tmux::channel_name(pid, nanos), escaped_shell)
            == "sh -c \""@ + crate::tmux::tmux_script(
            crate::tmux::channel_name(pid, nanos),
            escaped_shell,
        ) + "\""@,
        plain_in_double_quotes(
            crate::tmux::tmux_script(crate::tmux::channel_name(pid, nanos), escaped_shell),
        ) <==> plain_in_double_quotes(escaped_shell),
{
    let channel = crate::tmux::channel_name(pid, nanos);
    let a = "stty -echo 2>/dev/null; tmux wait-for -U "@;
    let b = "; stty echo 2>/dev/null; exec '"@;
    let c = "' -l"@;
    reveal_strlit("wm_ready_");
    reveal_strlit("stty -echo 2>/dev/null; tmux wait-for -U ");
    reveal_strlit("; stty echo 2>/dev/null; exec '");
    reveal_strlit("' -l");
    crate::text::decimal_is_digits(pid);
    crate::text::decimal_is_digits(nanos);
    assert(plain_in_double_quotes(channel));
    assert(plain_in_double_quotes(a));
    assert(plain_in_double_quotes(b));
    assert(plain_in_double_quotes(c));
    let script = crate::tmux::tmux_script(channel, escaped_shell);
    let start = (a + channel + b).len() as int;
    assert forall|i: int| 0 <= i < escaped_shell.len() implies escaped_shell[i]
        == script[start + i] by {}
}

} // verus!
