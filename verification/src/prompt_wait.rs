//! Waiting for a shell prompt to appear in a pane.
//!
//! A handshake signals readiness *before* the shell is exec'd, so keys could
//! arrive while the shell is still initializing. Polling the content of the
//! pane until the prompt is visible bridges that gap.

use vstd::prelude::*;

use crate::clock::has_expired;
use crate::prompt::has_shell_prompt;

verus! {

/// How long to wait for the shell prompt after the handshake (seconds).
///
/// More generous than the handshake timeout because shell initialization can
/// be slow (direnv, devenv, nvm, conda activate, etc.). The handshake confirms
/// the shell process exists; this confirms it's interactive.
pub const PROMPT_WAIT_TIMEOUT_SECS: u64 = 10;

/// How long to sleep between two looks at the pane (milliseconds).
pub const PROMPT_POLL_INTERVAL_MS: u64 = 50;

/// How many lines of the pane to look at.
pub const PROMPT_CAPTURE_LINES: u16 = 5;

/// How far the waiting has come.
#[derive(Clone, Copy, Debug, PartialEq, Eq)]
pub enum PromptPhase {
    /// The clock is to be started.
    Starting,
    /// The content of the pane is to be captured.
    Capturing,
    /// The clock is to be read.
    Timing,
    /// Some time is to pass before the next look.
    Sleeping,
    /// The waiting is over: the prompt was detected, or was not seen in time.
    Finished { detected: bool },
}

/// What is to be done next.
#[derive(Clone, Copy, Debug, PartialEq, Eq)]
pub enum PromptAction {
    /// Note the time.
    StartClock,
    /// Capture the last lines of the pane.
    CapturePane { lines: u16 },
    /// Measure the time since the clock was started.
    ReadClock,
    /// Let some time pass.
    Sleep { millis: u64 },
    /// Go on: keys can be sent.
    Proceed,
}

/// What came of an action.
#[derive(Debug, PartialEq, Eq)]
pub enum PromptEvent {
    /// The time was noted.
    ClockStarted,
    /// The content of the pane, if it could be captured.
    Captured { content: Option<String> },
    /// So much time has passed.
    Elapsed { nanos: u128 },
    /// The time to sleep has passed.
    Slept,
}

impl PromptPhase {
    /// What is to be done in this phase.
    pub open spec fn action(self) -> PromptAction {
        match self {
            PromptPhase::Starting => PromptAction::StartClock,
            PromptPhase::Capturing => PromptAction::CapturePane { lines: PROMPT_CAPTURE_LINES },
            PromptPhase::Timing => PromptAction::ReadClock,
            PromptPhase::Sleeping => PromptAction::Sleep { millis: PROMPT_POLL_INTERVAL_MS },
            PromptPhase::Finished { .. } => PromptAction::Proceed,
        }
    }
}

/// Can the event come of the action?
pub open spec fn prompt_answers(action: PromptAction, event: PromptEvent) -> bool {
    match action {
        PromptAction::StartClock => event is ClockStarted,
        PromptAction::CapturePane { .. } => event is Captured,
        PromptAction::ReadClock => event is Elapsed,
        PromptAction::Sleep { .. } => event is Slept,
        PromptAction::Proceed => false,
    }
}

/// Something was captured, and it shows a prompt.
pub open spec fn prompt_captured(content: Option<String>) -> bool {
    content matches Some(text) && crate::prompt::shows_prompt(text@)
}

/// The phase that follows on an event. The pane is looked at until it shows a
/// prompt or too much time has gone by; either way the caller goes on.
pub open spec fn prompt_next(event: PromptEvent) -> PromptPhase {
    match event {
        PromptEvent::ClockStarted => PromptPhase::Capturing,
        PromptEvent::Captured { content } => if prompt_captured(content) {
            PromptPhase::Finished { detected: true }
        } else {
            PromptPhase::Timing
        },
        PromptEvent::Elapsed { nanos } => if crate::clock::expired(
            nanos,
            PROMPT_WAIT_TIMEOUT_SECS,
        ) {
            PromptPhase::Finished { detected: false }
        } else {
            PromptPhase::Sleeping
        },
        PromptEvent::Slept => PromptPhase::Capturing,
    }
}

/// Waits for a shell prompt to appear in the pane, which indicates that the
/// shell is fully interactive and ready to receive commands.
///
/// Best-effort: when the time is over (e.g. an unusual prompt that is not
/// recognized), the caller goes on all the same.
pub fn wait_for_prompt(pane_id: &str) -> (wait: PromptWait)
    ensures
        wait.pane() == pane_id@,
        wait.phase() == PromptPhase::Starting,
{
    PromptWait { pane_id: pane_id.to_owned(), phase: PromptPhase::Starting }
}

/// Waiting for a prompt to appear in a pane.
///
/// The caller carries out the action that is due and reports what came of it,
/// until it can go on.
#[derive(Debug)]
pub struct PromptWait {
    pane_id: String,
    phase: PromptPhase,
}

impl PromptWait {
    /// The pane that is looked at.
    pub closed spec fn pane(&self) -> Seq<char> {
        self.pane_id@
    }

    /// How far the waiting has come.
    pub closed spec fn phase(&self) -> PromptPhase {
        self.phase
    }

    /// The pane that `CapturePane` captures.
    pub fn pane_id(&self) -> (pane_id: &str)
        ensures
            pane_id@ == self.pane(),
    {
        self.pane_id.as_str()
    }

    /// The action that is due.
    pub fn action(&self) -> (action: PromptAction)
        ensures
            action == self.phase().action(),
    {
        match self.phase {
            PromptPhase::Starting => PromptAction::StartClock,
            PromptPhase::Capturing => PromptAction::CapturePane { lines: PROMPT_CAPTURE_LINES },
            PromptPhase::Timing => PromptAction::ReadClock,
            PromptPhase::Sleeping => PromptAction::Sleep { millis: PROMPT_POLL_INTERVAL_MS },
            PromptPhase::Finished { .. } => PromptAction::Proceed,
        }
    }

    /// Takes in what came of the action that was due. An event that cannot
    /// come of it is refused, and the waiting is handed back as it was.
    pub fn step(self, event: PromptEvent) -> (next: Result<PromptWait, PromptWait>)
        ensures
            match next {
                Ok(w) => {
                    &&& prompt_answers(self.phase().action(), event)
                    &&& w.phase() == prompt_next(event)
                    &&& w.pane() == self.pane()
                    &&& event matches PromptEvent::Captured { content: Some(text) } ==> (
                    crate::prompt::no_escapes(text@) ==> (w.phase() is Finished
                        <==> crate::prompt::prompt_at_end(text@)))
                },
                Err(w) => !prompt_answers(self.phase().action(), event) && w == self,
            },
    {
        let phase = match (self.phase, event) {
            (PromptPhase::Starting, PromptEvent::ClockStarted) => PromptPhase::Capturing,
            (PromptPhase::Capturing, PromptEvent::Captured { content }) => {
                let detected = match content {
                    Some(text) => has_shell_prompt(text.as_str()),
                    None => false,
                };
                if detected {
                    PromptPhase::Finished { detected: true }
                } else {
                    PromptPhase::Timing
                }
            },
            (PromptPhase::Timing, PromptEvent::Elapsed { nanos }) => {
                if has_expired(nanos, PROMPT_WAIT_TIMEOUT_SECS) {
                    PromptPhase::Finished { detected: false }
                } else {
                    PromptPhase::Sleeping
                }
            },
            (PromptPhase::Sleeping, PromptEvent::Slept) => PromptPhase::Capturing,
            _ => {
                return Err(self);
            },
        };
        Ok(PromptWait { pane_id: self.pane_id, phase })
    }

    /// Whether the prompt was detected, once the waiting is over.
    pub fn detected(&self) -> (detected: Option<bool>)
        ensures
            match detected {
                Some(d) => self.phase() == (PromptPhase::Finished { detected: d }),
                None => self.phase() !is Finished,
            },
    {
        match self.phase {
            PromptPhase::Finished { detected } => Some(detected),
            _ => None,
        }
    }
}

} // verus!
