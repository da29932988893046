//! What holds of every handshake through a named pipe, from its path to its
//! result.

use vstd::prelude::*;
use vstd::utf8::*;

use crate::clock::HANDSHAKE_TIMEOUT_SECS;
use crate::error::HandshakeError;
use crate::pipe::{PipeAction, PipeEvent, PipePhase};

verus! {

/// The phase in which a waiting is after the events, where each of them came
/// of the action that was due.
pub open spec fn pipe_run(events: Seq<PipeEvent>) -> Option<PipePhase>
    decreases events.len(),
{
    if events.len() == 0 {
        Some(PipePhase::Opening)
    } else {
        match pipe_run(events.drop_last()) {
            Some(phase) => if crate::pipe::pipe_answers(phase.action(), events.last()) {
                Some(crate::pipe::pipe_next(phase, events.last()))
            } else {
                None
            },
            None => None,
        }
    }
}

/// The action that the event at an index came of.
pub open spec fn pipe_action_at(events: Seq<PipeEvent>, i: int) -> PipeAction {
    pipe_run(events.take(i))->0.action()
}

/// The result, read off the last events.
pub open spec fn pipe_verdict(events: Seq<PipeEvent>) -> Result<(), HandshakeError> {
    let decisive = events[events.len() - 2];
    if decisive is OpenFailed {
        Err(HandshakeError::PipeNotOpened { cause: decisive->OpenFailed_cause })
    } else if decisive is Elapsed {
        Err(HandshakeError::TimedOut)
    } else if decisive->WasRead_bytes > 0 {
        Ok(())
    } else {
        Err(HandshakeError::PipeClosed)
    }
}

/// How often the pipe was polled.
pub open spec fn pipe_polls(events: Seq<PipeEvent>) -> nat
    decreases events.len(),
{
    if events.len() == 0 {
        0
    } else {
        pipe_polls(events.drop_last()) + if events.last() is Polled {
            1nat
        } else {
            0nat
        }
    }
}

/// The clock never shows less than the polls take that wait to the end.
pub open spec fn pipe_clock_keeps_pace(events: Seq<PipeEvent>) -> bool {
    forall|i: int| #[trigger]
        events[i] is Elapsed && 0 <= i < events.len() ==> events[i]->Elapsed_nanos >= pipe_polls(
            events.take(i),
        ) * crate::pipe::PIPE_POLL_INTERVAL_MS * crate::clock::NANOS_PER_MILLI
}

/// Every beginning of a waiting is one, and the event after it came of the
/// action that was due.
pub proof fn pipe_run_goes_event_by_event(events: Seq<PipeEvent>, i: int)
    requires
        pipe_run(events) is Some,
        0 <= i < events.len(),
    ensures
        pipe_run(events.take(i)) is Some,
        crate::pipe::pipe_answers(pipe_action_at(events, i), events[i]),
        pipe_run(events.take(i + 1)) == Some(
            crate::pipe::pipe_next(pipe_run(events.take(i))->0, events[i]),
        ),
    decreases events.len(),
{
    let n = events.len() as int;
    assert(events.take(n) =~= events);
    assert(events.take(n - 1) =~= events.drop_last());
    if i < n - 1 {
        pipe_run_goes_event_by_event(events.drop_last(), i);
        assert(events.drop_last().take(i) =~= events.take(i));
        assert(events.drop_last().take(i + 1) =~= events.take(i + 1));
    }
}

/// A waiting that takes in one more event goes on as a single step from its
/// phase does: the event is taken in if and only if it can come of what is due.
pub proof fn pipe_run_grows_by_steps(events: Seq<PipeEvent>, event: PipeEvent)
    requires
        pipe_run(events) is Some,
    ensures
        ({
            let phase = pipe_run(events)->0;
            pipe_run(events.push(event)) == if crate::pipe::pipe_answers(phase.action(), event) {
                Some(crate::pipe::pipe_next(phase, event))
            } else {
                None::<PipePhase>
            }
        }),
{
    assert(events.push(event).drop_last() =~= events);
}

/// As long as the waiting is not over, something can come of what is due.
pub proof fn pipe_is_never_stuck(phase: PipePhase)
    ensures
        phase !is Finished <==> exists|event: PipeEvent|
            crate::pipe::pipe_answers(phase.action(), event),
{
    let event = match phase {
        PipePhase::Opening => PipeEvent::Opened,
        PipePhase::Starting => PipeEvent::ClockStarted,
        PipePhase::Polling => PipeEvent::Polled { ret: 0, revents: 0 },
        PipePhase::Reading => PipeEvent::WasRead { bytes: 0 },
        PipePhase::Timing => PipeEvent::Elapsed { nanos: 0 },
        _ => PipeEvent::Removed,
    };
    if phase !is Finished {
        assert(crate::pipe::pipe_answers(phase.action(), event));
    }
}

/// The result of a waiting is read off its last events: the shell was ready if
/// and only if something could be read, and each error has its one cause. A
/// read follows on a poll that found something, and a waiting that timed out
/// had a reading of the clock at or over the limit.
pub proof fn pipe_result_is_what_happened(events: Seq<PipeEvent>)
    requires
        pipe_run(events) matches Some(PipePhase::Finished { .. }),
    ensures
        pipe_run(events) == Some(PipePhase::Finished { result: pipe_verdict(events) }),
        events[events.len() - 2] !is OpenFailed ==> {
            let n = events.len() as int;
            &&& n >= 4
            &&& events[n - 2] is WasRead || events[n - 2] is Elapsed
            &&& events[n - 2] is Elapsed ==> crate::clock::expired(
                events[n - 2]->Elapsed_nanos,
                HANDSHAKE_TIMEOUT_SECS,
            )
            &&& events[n - 3] is Polled
            &&& events[n - 2] is WasRead <==> crate::pipe::readable(
                events[n - 3]->ret,
                events[n - 3]->revents,
            )
        },
{
    let n = events.len() as int;
    reveal_with_fuel(pipe_run, 5);
    let e1 = events.drop_last();
    assert(events.len() > 0);
    assert(pipe_run(e1)->0 is Removing);
    assert(e1.last() == events[n - 2]);
    if events[n - 2] !is OpenFailed {
        let e2 = e1.drop_last();
        let e3 = e2.drop_last();
        assert(pipe_run(e2)->0 is Reading || pipe_run(e2)->0 is Timing);
        assert(e2.last() == events[n - 3]);
        assert(pipe_run(e3)->0 is Polling);
        assert(e3.len() > 0);
    }
}

/// Every waiting ends by removing the pipe, and removes it at no other time.
pub proof fn pipe_is_removed_exactly_once(events: Seq<PipeEvent>)
    requires
        pipe_run(events) matches Some(PipePhase::Finished { .. }),
    ensures
        pipe_action_at(events, events.len() - 1) == PipeAction::RemovePipe,
        forall|i: int|
            0 <= i < events.len() - 1 ==> #[trigger] pipe_action_at(events, i)
                != PipeAction::RemovePipe,
{
    let n = events.len() as int;
    pipe_run_goes_event_by_event(events, n - 1);
    assert(events.take(n) =~= events);
    assert forall|i: int| 0 <= i < n - 1 implies #[trigger] pipe_action_at(events, i)
        != PipeAction::RemovePipe by {
        pipe_run_goes_event_by_event(events, i);
        pipe_run_goes_event_by_event(events, i + 1);
    }
}

/// The pipe is opened first, and only once: for reading only, and without
/// blocking while there is no writer.
pub proof fn pipe_is_opened_exactly_once(events: Seq<PipeEvent>, i: int)
    requires
        pipe_run(events) is Some,
        0 <= i < events.len(),
    ensures
        pipe_action_at(events, i) is OpenPipe <==> i == 0,
        i == 0 ==> pipe_action_at(events, i) == (PipeAction::OpenPipe {
            read: true,
            write: false,
            nonblocking: true,
        }),
{
    pipe_run_goes_event_by_event(events, i);
    assert(events.take(i).len() == i);
}

/// Every poll asks whether there is something to read, and for nothing else.
pub proof fn pipe_polls_ask_for_input(events: Seq<PipeEvent>, i: int)
    requires
        pipe_run(events) is Some,
        0 <= i < events.len(),
    ensures
        events[i] is Polled ==> pipe_action_at(events, i) == (PipeAction::Poll {
            events: crate::pipe::INPUT_EVENT,
            timeout_millis: crate::pipe::PIPE_POLL_INTERVAL_MS,
        }),
{
    pipe_run_goes_event_by_event(events, i);
}

/// What is due follows from what happened last. In particular a reading of the
/// clock under five seconds is followed by another poll, and only one of five
/// seconds or more by giving up; and the pipe is read exactly where a poll
/// succeeded and reported input.
pub proof fn pipe_last_event_says_what_is_due(events: Seq<PipeEvent>)
    requires
        pipe_run(events) is Some,
    ensures
        ({
            let due = pipe_run(events)->0.action();
            let last = events.last();
            let poll = PipeAction::Poll { events: 1, timeout_millis: 50 };
            let read = PipeAction::Read { max_bytes: 64 };
            &&& events.len() == 0 ==> due == (PipeAction::OpenPipe {
                read: true,
                write: false,
                nonblocking: true,
            })
            &&& events.len() > 0 && last is Opened ==> due == PipeAction::StartClock
            &&& events.len() > 0 && last is ClockStarted ==> due == poll
            &&& events.len() > 0 && last is Polled && last->ret > 0 && last->revents & 1 != 0
                ==> due == read
            &&& events.len() > 0 && last is Polled && !(last->ret > 0 && last->revents & 1 != 0)
                ==> due == PipeAction::ReadClock
            &&& events.len() > 0 && last is Elapsed && last->Elapsed_nanos < 5_000_000_000 ==> due
                == poll
            &&& events.len() > 0 && last is Elapsed && last->Elapsed_nanos >= 5_000_000_000 ==> due
                == PipeAction::RemovePipe
            &&& events.len() > 0 && (last is OpenFailed || last is WasRead) ==> due
                == PipeAction::RemovePipe
            &&& events.len() > 0 && last is Removed ==> due == PipeAction::Return
        }),
{
}

/// Whatever can come of the action that is due is taken in, and nothing else.
pub proof fn pipe_takes_in_every_answer(events: Seq<PipeEvent>, event: PipeEvent)
    requires
        pipe_run(events) is Some,
    ensures
        pipe_run(events.push(event)) is Some <==> match pipe_run(events)->0.action() {
            PipeAction::OpenPipe { .. } => event is Opened || event is OpenFailed,
            PipeAction::StartClock => event is ClockStarted,
            PipeAction::Poll { .. } => event is Polled,
            PipeAction::Read { .. } => event is WasRead,
            PipeAction::ReadClock => event is Elapsed,
            PipeAction::RemovePipe => event is Removed,
            PipeAction::Return => false,
        },
{
    pipe_run_grows_by_steps(events, event);
}

/// The waiting is over exactly when an attempt to remove the pipe has been
/// reported.
pub proof fn pipe_is_over_once_removed(events: Seq<PipeEvent>)
    requires
        pipe_run(events) is Some,
        events.len() > 0,
    ensures
        pipe_run(events)->0 is Finished <==> events.last() is Removed,
{
}

/// Every result has its history, told in the events alone: the shell is ready
/// exactly where at least one byte was read; a waiting times out exactly where
/// it gave up at a reading of five seconds or more; and each other error, with
/// its cause, comes exactly where the event that names it happened.
pub proof fn pipe_every_result_has_its_history(events: Seq<PipeEvent>)
    requires
        pipe_run(events) matches Some(PipePhase::Finished { .. }),
    ensures
        ({
            let n = events.len() as int;
            let result = pipe_run(events)->0->Finished_result;
            let decisive = events[n - 2];
            &&& n >= 2
            &&& result is Ok <==> decisive is WasRead && decisive->WasRead_bytes > 0
            &&& (result is Err && result->Err_0 is PipeClosed) <==> decisive is WasRead
                && decisive->WasRead_bytes <= 0
            &&& (result is Err && result->Err_0 is PipeNotOpened) <==> decisive is OpenFailed
            &&& decisive is OpenFailed ==> result->Err_0->PipeNotOpened_cause
                == decisive->OpenFailed_cause
            &&& (result is Err && result->Err_0 is TimedOut) <==> decisive is Elapsed
            &&& decisive is Elapsed ==> decisive->Elapsed_nanos >= 5_000_000_000
            &&& decisive is WasRead || decisive is OpenFailed || decisive is Elapsed
        }),
{
    let n = events.len() as int;
    reveal_with_fuel(pipe_run, 3);
    let e1 = events.drop_last();
    assert(events.len() > 0);
    assert(pipe_run(e1)->0 is Removing);
    assert(e1.last() == events[n - 2]);
}

/// No waiting gives up before five seconds are over: a reading under that is
/// followed by another poll.
pub proof fn pipe_polls_again_before_the_limit(events: Seq<PipeEvent>, i: int)
    requires
        pipe_run(events) is Some,
        0 <= i < events.len() - 1,
        events[i] is Elapsed,
        events[i]->Elapsed_nanos < 5_000_000_000,
    ensures
        pipe_action_at(events, i + 1) == (PipeAction::Poll { events: 1, timeout_millis: 50 }),
        events[i + 1] is Polled,
{
    pipe_run_goes_event_by_event(events, i);
    pipe_run_goes_event_by_event(events, i + 1);
}

/// Once the clock has been read at or over the limit, the waiting does not
/// poll again: it is over after one more event.
pub proof fn pipe_never_outstays_the_limit(events: Seq<PipeEvent>, i: int)
    requires
        pipe_run(events) is Some,
        0 <= i < events.len(),
        events[i] is Elapsed,
        crate::clock::expired(events[i]->Elapsed_nanos, HANDSHAKE_TIMEOUT_SECS),
    ensures
        events.len() <= i + 2,
        events.len() == i + 2 ==> pipe_run(events) matches Some(
            PipePhase::Finished { result: Err(HandshakeError::TimedOut) },
        ),
{
    let n = events.len() as int;
    assert(events.take(n) =~= events);
    pipe_run_goes_event_by_event(events, i);
    if i + 1 < n {
        pipe_run_goes_event_by_event(events, i + 1);
    }
    if i + 2 < n {
        pipe_run_goes_event_by_event(events, i + 2);
    }
}

/// How many events there are in each phase, counted by the polls.
proof fn pipe_events_per_poll(events: Seq<PipeEvent>)
    requires
        pipe_run(events) is Some,
        pipe_clock_keeps_pace(events),
    ensures
        pipe_polls(events) <= 100,
        ({
            let n = events.len() as int;
            let rounds = 2 * pipe_polls(events);
            match pipe_run(events)->0 {
                PipePhase::Opening => n == 0,
                PipePhase::Starting => n == 1 && rounds == 0,
                PipePhase::Polling => n == 2 + rounds && pipe_polls(events) < 100,
                PipePhase::Reading => n == 1 + rounds,
                PipePhase::Timing => n == 1 + rounds,
                PipePhase::Removing { .. } => n <= 2 + rounds,
                PipePhase::Finished { .. } => n <= 3 + rounds,
            }
        }),
    decreases events.len(),
{
    let n = events.len() as int;
    if n > 0 {
        let before = events.drop_last();
        assert(before =~= events.take(n - 1));
        assert forall|i: int| #[trigger]
            before[i] is Elapsed && 0 <= i < before.len() implies before[i]->Elapsed_nanos
            >= pipe_polls(before.take(i)) * crate::pipe::PIPE_POLL_INTERVAL_MS
            * crate::clock::NANOS_PER_MILLI by {
            assert(before[i] == events[i]);
            assert(before.take(i) =~= events.take(i));
        }
        pipe_events_per_poll(before);
        assert(events.last() == events[n - 1]);
    }
}

/// Where every poll that finds nothing takes its time, no waiting goes on
/// forever: the pipe is polled a hundred times at most.
pub proof fn pipe_wait_is_bounded(events: Seq<PipeEvent>)
    requires
        pipe_run(events) is Some,
        pipe_clock_keeps_pace(events),
    ensures
        pipe_polls(events) <= 100,
        events.len() <= 203,
{
    pipe_events_per_poll(events);
}

/// A poll found something to read exactly where it succeeded and reported an odd
/// mask of events: the lowest bit stands for input.
pub proof fn pipe_input_is_the_lowest_bit(ret: i32, revents: i16)
    ensures
        crate::pipe::readable(ret, revents) <==> ret > 0 && revents as int % 2 == 1,
{
    assert(revents & 1i16 == 0i16 || revents & 1i16 == 1i16) by (bit_vector);
    assert(revents & 1i16 != 0i16 <==> revents % 2i16 != 0i16) by (bit_vector);
}

/// A path keeps the directory and the name whole, with one separator between
/// them where the directory is not empty and does not end in one.
pub proof fn pipe_path_keeps_directory_and_name(dir: Seq<u8>, name: Seq<u8>)
    ensures
        ({
            let path = crate::pipe::in_directory(dir, name);
            let joined = dir.len() == 0 || dir.last() == 0x2f;
            &&& path.take(dir.len() as int) == dir
            &&& path.skip(path.len() - name.len()) == name
            &&& joined ==> path.len() == dir.len() + name.len()
            &&& !joined ==> path.len() == dir.len() + 1 + name.len() && path[dir.len() as int]
                == 0x2f
        }),
{
}

/// The pipe is named after the process and the moment, both told whole.
pub proof fn pipe_is_named_after_its_moment(pid: nat, nanos: nat)
    ensures
        crate::pipe::pipe_name(pid, nanos) == "workmux_pipe_"@ + crate::text::decimal(pid) + "_"@
            + crate::text::decimal(nanos),
{
    reveal_strlit("_");
}

/// The script writes to the very pipe that it is given, with its whole path,
/// and becomes the very shell that it was made for.
pub proof fn pipe_script_writes_to_the_pipe(path: Seq<char>, shell: Seq<char>)
    ensures
        ({
            let script = crate::pipe::pipe_script(path, shell);
            let head = "echo ready > "@;
            let middle = "; exec '"@;
            let tail = "' -l"@;
            let a = head.len() as int;
            let b = a + path.len();
            let c = b + middle.len();
            let d = c + shell.len();
            &&& script.len() == d + tail.len()
            &&& script.take(a) == head
            &&& script.subrange(a, b) == path
            &&& script.subrange(b, c) == middle
            &&& script.subrange(c, d) == shell
            &&& script.skip(d) == tail
        }),
{
}

/// What the script redirects to, encoded, is the path that the pipe was made
/// at, wherever that path is valid UTF-8.
pub proof fn pipe_script_redirects_to_the_path(pipe_path: Seq<u8>, shell: Seq<char>)
    requires
        valid_utf8(pipe_path),
    ensures
        ({
            let text = decode_utf8(pipe_path);
            let script = crate::pipe::pipe_script(text, shell);
            let start = "echo ready > "@.len() as int;
            encode_utf8(script.subrange(start, start + text.len())) == pipe_path
        }),
{
    pipe_script_writes_to_the_pipe(decode_utf8(pipe_path), shell);
    decode_utf8_encode_utf8(pipe_path);
}

/// The wrapper command writes to the very pipe that it is given, with its whole
/// path, and becomes the escaped shell.
pub proof fn pipe_wrapper_writes_to_the_pipe(path: Seq<char>, escaped_shell: Seq<char>)
    ensures
        ({
            let wrapper = crate::pipe::pipe_wrapper(path, escaped_shell);
            let head = "sh -c 'echo ready > "@;
            let middle = "; exec '\\''"@;
            let tail = "'\\'' -l'"@;
            let a = head.len() as int;
            let b = a + path.len();
            let c = b + middle.len();
            let d = c + escaped_shell.len();
            &&& wrapper.len() == d + tail.len()
            &&& wrapper.take(a) == head
            &&& wrapper.subrange(a, b) == path
            &&& wrapper.subrange(b, c) == middle
            &&& wrapper.subrange(c, d) == escaped_shell
            &&& wrapper.skip(d) == tail
        }),
{
}

/// Two pipes are never confused: neither the scripts nor the wrappers for one
/// shell are alike.
pub proof fn pipe_commands_tell_paths_apart(one: Seq<char>, other: Seq<char>, shell: Seq<char>)
    requires
        one != other,
    ensures
        crate::pipe::pipe_script(one, shell) != crate::pipe::pipe_script(other, shell),
        crate::pipe::pipe_wrapper(one, shell) != crate::pipe::pipe_wrapper(other, shell),
{
    pipe_script_writes_to_the_pipe(one, shell);
    pipe_script_writes_to_the_pipe(other, shell);
    pipe_wrapper_writes_to_the_pipe(one, shell);
    pipe_wrapper_writes_to_the_pipe(other, shell);
    if one.len() == other.len() {
        let from = "echo ready > "@.len() as int;
        assert(crate::pipe::pipe_script(one, shell).subrange(from, from + one.len()) == one);
        let start = "sh -c 'echo ready > "@.len() as int;
        assert(crate::pipe::pipe_wrapper(one, shell).subrange(start, start + one.len()) == one);
    }
}

/// In one directory, no two processes, and no two moments of one process,
/// share a pipe.
pub proof fn pipe_paths_are_unique(dir: Seq<u8>, pid1: nat, nanos1: nat, pid2: nat, nanos2: nat)
    requires
        crate::pipe::in_directory(dir, encode_utf8(crate::pipe::pipe_name(pid1, nanos1)))
            == crate::pipe::in_directory(dir, encode_utf8(crate::pipe::pipe_name(pid2, nanos2))),
    ensures
        pid1 == pid2,
        nanos1 == nanos2,
{
    let name1 = crate::pipe::pipe_name(pid1, nanos1);
    let name2 = crate::pipe::pipe_name(pid2, nanos2);
    let path1 = crate::pipe::in_directory(dir, encode_utf8(name1));
    let path2 = crate::pipe::in_directory(dir, encode_utf8(name2));
    let start = if dir.len() == 0 || dir.last() == crate::pipe::SEPARATOR {
        dir.len() as int
    } else {
        dir.len() as int + 1
    };
    assert(encode_utf8(name1) =~= path1.skip(start));
    assert(encode_utf8(name2) =~= path2.skip(start));
    encode_utf8_decode_utf8(name1);
    encode_utf8_decode_utf8(name2);
    crate::text::numbered_is_injective("workmux_pipe_"@, pid1, nanos1, pid2, nanos2);
}

/// The encoding of two texts, one after the other.
proof fn encoding_of_concatenation(a: Seq<char>, b: Seq<char>)
    ensures
        encode_utf8(a + b) == encode_utf8(a) + encode_utf8(b),
    decreases a.len(),
{
    if a.len() == 0 {
        assert(a + b =~= b);
        assert(encode_utf8(a) + encode_utf8(b) =~= encode_utf8(b));
    } else {
        assert((a + b).drop_first() =~= a.drop_first() + b);
        encoding_of_concatenation(a.drop_first(), b);
        assert(encode_utf8(a + b) =~= encode_utf8(a) + encode_utf8(b));
    }
}

/// The encoding of one character.
proof fn encoding_of_character(c: char)
    ensures
        encode_utf8(seq![c]) == encode_scalar(c as u32),
        encode_scalar(c as u32).len() > 0,
        encode_scalar(c as u32).last() == crate::pipe::SEPARATOR <==> c == '/',
        c == '/' ==> encode_scalar(c as u32) == seq![crate::pipe::SEPARATOR],
{
    let n = c as u32;
    assert(seq![c].drop_first() =~= Seq::<char>::empty());
    reveal_with_fuel(encode_utf8, 2);
    assert(encode_utf8(seq![c]) =~= encode_scalar(n));
    assert(has_width_1_encoding(n) ==> leading_byte_width_1(n) == n) by (bit_vector);
    assert(last_continuation_byte(n) >= 0x80) by (bit_vector);
}

/// A path in a directory, as text.
pub open spec fn text_in_directory(dir: Seq<char>, name: Seq<char>) -> Seq<char> {
    if dir.len() == 0 || dir.last() == '/' {
        dir + name
    } else {
        dir.push('/') + name
    }
}

/// Where the directory's path is text, so is the path of the pipe: the
/// directory, a slash if it does not end in one, and the pipe's name. This is
/// what the scripts write to.
pub proof fn pipe_path_reads_as_text(dir: Seq<char>, pid: nat, nanos: nat)
    ensures
        ({
            let name = crate::pipe::pipe_name(pid, nanos);
            let path = crate::pipe::in_directory(encode_utf8(dir), encode_utf8(name));
            valid_utf8(path) && decode_utf8(path) == text_in_directory(dir, name)
        }),
{
    let name = crate::pipe::pipe_name(pid, nanos);
    let path = crate::pipe::in_directory(encode_utf8(dir), encode_utf8(name));
    let text = text_in_directory(dir, name);
    encoding_of_character('/');
    if dir.len() > 0 {
        assert(dir =~= dir.drop_last() + seq![dir.last()]);
        encoding_of_concatenation(dir.drop_last(), seq![dir.last()]);
        encoding_of_character(dir.last());
    }
    assert(dir.push('/') =~= dir + seq!['/']);
    encoding_of_concatenation(dir, seq!['/']);
    assert(encode_utf8(dir).push(crate::pipe::SEPARATOR) =~= encode_utf8(dir)
        + seq![crate::pipe::SEPARATOR]);
    encoding_of_concatenation(dir, name);
    encoding_of_concatenation(dir.push('/'), name);
    assert(path == encode_utf8(text));
    encode_utf8_valid_utf8(text);
    encode_utf8_decode_utf8(text);
}

/// A text as it is written between single quotes in a POSIX shell: each single
/// quote ends the quotes, is given by itself, and begins them again.
pub open spec fn in_single_quotes(text: Seq<char>) -> Seq<char>
    decreases text.len(),
{
    if text.len() == 0 {
        Seq::empty()
    } else {
        in_single_quotes(text.drop_last()) + if text.last() == '\'' {
            seq!['\'', '\\', '\'', '\'']
        } else {
            seq![text.last()]
        }
    }
}

/// Two texts one after the other are quoted one after the other.
proof fn quoting_of_concatenation(a: Seq<char>, b: Seq<char>)
    ensures
        in_single_quotes(a + b) == in_single_quotes(a) + in_single_quotes(b),
    decreases b.len(),
{
    if b.len() == 0 {
        assert(a + b =~= a);
        assert(in_single_quotes(a) + in_single_quotes(b) =~= in_single_quotes(a));
    } else {
        assert((a + b).drop_last() =~= a + b.drop_last());
        quoting_of_concatenation(a, b.drop_last());
        assert(in_single_quotes(a + b) =~= in_single_quotes(a) + in_single_quotes(b));
    }
}

/// A text without single quotes is quoted as it stands.
proof fn quoting_of_plain_text(text: Seq<char>)
    requires
        !text.contains('\''),
    ensures
        in_single_quotes(text) == text,
    decreases text.len(),
{
    if text.len() > 0 {
        assert forall|i: int| 0 <= i < text.drop_last().len() implies text.drop_last()[i]
            != '\'' by {
            assert(text[i] != '\'');
        }
        quoting_of_plain_text(text.drop_last());
        assert(text.last() != '\'') by {
            assert(text.contains(text.last()));
        }
        assert(in_single_quotes(text) =~= text);
    }
}

/// The argument of `sh -c` in the wrapper command is the script that
/// `script_content` gives for the escaped shell, put in single quotes, where
/// neither the path nor the escaped shell holds a single quote. (Both are put
/// in as they come, so a quote in them would end the quotes.)
pub proof fn pipe_wrapper_quotes_the_script(path: Seq<char>, escaped_shell: Seq<char>)
    requires
        !path.contains('\''),
        !escaped_shell.contains('\''),
    ensures
        crate::pipe::pipe_wrapper(path, escaped_shell) == "sh -c '"@ + in_single_quotes(
            crate::pipe::pipe_script(path, escaped_shell),
        ) + "'"@,
{
    reveal_strlit("sh -c '");
    reveal_strlit("'");
    reveal_strlit("echo ready > ");
    reveal_strlit("; exec '");
    reveal_strlit("' -l");
    reveal_strlit("sh -c 'echo ready > ");
    reveal_strlit("; exec '\\''");
    reveal_strlit("'\\'' -l'");
    reveal_strlit("; exec ");
    reveal_strlit(" -l");
    let a = "echo ready > "@;
    let b = "; exec '"@;
    let c = "' -l"@;
    quoting_of_concatenation(a, path);
    quoting_of_concatenation(a + path, b);
    quoting_of_concatenation(a + path + b, escaped_shell);
    quoting_of_concatenation(a + path + b + escaped_shell, c);
    quoting_of_plain_text(path);
    quoting_of_plain_text(escaped_shell);
    quoting_of_plain_text(a);
    assert(b =~= "; exec "@ + "'"@);
    assert(c =~= "'"@ + " -l"@);
    quoting_of_plain_text("; exec "@);
    quoting_of_plain_text(" -l"@);
    quoting_of_concatenation("; exec "@, "'"@);
    quoting_of_concatenation("'"@, " -l"@);
    assert(in_single_quotes("'"@) =~= seq!['\'', '\\', '\'', '\'']) by {
        reveal_with_fuel(in_single_quotes, 2);
    }
    assert(crate::pipe::pipe_wrapper(path, escaped_shell) =~= "sh -c '"@ + in_single_quotes(
        crate::pipe::pipe_script(path, escaped_shell),
    ) + "'"@);
}

} // verus!
