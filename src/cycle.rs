use vstd::prelude::*;
use crate::session::{BREAK_TIME, SessionOutcome, WORK_TIME};

verus! {

/// Where the work/break cycle stands.
#[derive(Clone, Copy, Debug, PartialEq, Eq, Structural)]
pub enum Phase {
    /// Asking whether to start a work session.
    PromptWork,
    /// A work session is running.
    RunWork,
    /// Asking whether to start a break session.
    PromptBreak,
    /// A break session is running.
    RunBreak,
    /// The program ends.
    Exit,
}

/// What ended the current phase.
#[derive(Clone, Copy, Debug, PartialEq, Eq, Structural)]
pub enum PhaseEvent {
    /// The user's answer to a prompt: `true` to start the session.
    Answered(bool),
    /// A session run ended with this outcome.
    Finished(SessionOutcome),
}

/// The phase that follows, and whether the goodbye line is shown on the way.
#[derive(Clone, Copy, Debug, PartialEq, Eq, Structural)]
pub struct Transition {
    pub next: Phase,
    pub farewell: bool,
}

/// The cycle's transitions; an event that does not belong to the phase leaves it as it is.
pub open spec fn transition_of(phase: Phase, event: PhaseEvent) -> Transition {
    match (phase, event) {
        (Phase::PromptWork, PhaseEvent::Answered(yes)) => if yes {
            Transition { next: Phase::RunWork, farewell: false }
        } else {
            Transition { next: Phase::Exit, farewell: true }
        },
        (Phase::RunWork, PhaseEvent::Finished(o)) => match o {
            SessionOutcome::Completed => Transition { next: Phase::PromptBreak, farewell: false },
            SessionOutcome::Quit => Transition { next: Phase::Exit, farewell: false },
            SessionOutcome::Reset => Transition { next: Phase::PromptWork, farewell: false },
        },
        (Phase::PromptBreak, PhaseEvent::Answered(yes)) => if yes {
            Transition { next: Phase::RunBreak, farewell: false }
        } else {
            Transition { next: Phase::PromptWork, farewell: false }
        },
        (Phase::RunBreak, PhaseEvent::Finished(o)) => match o {
            SessionOutcome::Quit => Transition { next: Phase::Exit, farewell: false },
            _ => Transition { next: Phase::PromptWork, farewell: false },
        },
        _ => Transition { next: phase, farewell: false },
    }
}

/// A reset in either kind of session leaves it for the work prompt, from which an
/// accepted answer starts a new work session (and with it a new timer).
pub proof fn lemma_reset_restarts(phase: Phase)
    requires
        phase == Phase::RunWork || phase == Phase::RunBreak,
    ensures
        transition_of(phase, PhaseEvent::Finished(SessionOutcome::Reset)).next == Phase::PromptWork,
        transition_of(Phase::PromptWork, PhaseEvent::Answered(true)).next == Phase::RunWork,
{
}

/// Moves the cycle on from `phase` after `event`.
pub fn advance(phase: Phase, event: PhaseEvent) -> (r: Transition)
    ensures
        r == transition_of(phase, event),
{
    match (phase, event) {
        (Phase::PromptWork, PhaseEvent::Answered(yes)) => if yes {
            Transition { next: Phase::RunWork, farewell: false }
        } else {
            Transition { next: Phase::Exit, farewell: true }
        },
        (Phase::RunWork, PhaseEvent::Finished(o)) => match o {
            SessionOutcome::Completed => Transition { next: Phase::PromptBreak, farewell: false },
            SessionOutcome::Quit => Transition { next: Phase::Exit, farewell: false },
            SessionOutcome::Reset => Transition { next: Phase::PromptWork, farewell: false },
        },
        (Phase::PromptBreak, PhaseEvent::Answered(yes)) => if yes {
            Transition { next: Phase::RunBreak, farewell: false }
        } else {
            Transition { next: Phase::PromptWork, farewell: false }
        },
        (Phase::RunBreak, PhaseEvent::Finished(o)) => match o {
            SessionOutcome::Quit => Transition { next: Phase::Exit, farewell: false },
            _ => Transition { next: Phase::PromptWork, farewell: false },
        },
        _ => Transition { next: phase, farewell: false },
    }
}

/// The session type named in a prompt phase's question.
pub fn prompt_label(phase: Phase) -> (r: Option<&'static str>)
    ensures
        phase == Phase::PromptWork ==> r is Some && r->0@ == "work"@,
        phase == Phase::PromptBreak ==> r is Some && r->0@ == "break"@,
        phase != Phase::PromptWork && phase != Phase::PromptBreak ==> r is None,
{
    match phase {
        Phase::PromptWork => Some("work"),
        Phase::PromptBreak => Some("break"),
        _ => None,
    }
}

/// The session that a running phase starts: its length and its label.
pub struct SessionPlan {
    pub duration: u64,
    pub label: &'static str,
}

/// The session that a running phase starts; other phases start none.
pub fn session_plan(phase: Phase) -> (r: Option<SessionPlan>)
    ensures
        phase == Phase::RunWork ==> r is Some && r->0.duration == WORK_TIME && r->0.label@
            == "Work"@,
        phase == Phase::RunBreak ==> r is Some && r->0.duration == BREAK_TIME && r->0.label@
            == "Break"@,
        phase != Phase::RunWork && phase != Phase::RunBreak ==> r is None,
{
    match phase {
        Phase::RunWork => Some(SessionPlan { duration: WORK_TIME, label: "Work" }),
        Phase::RunBreak => Some(SessionPlan { duration: BREAK_TIME, label: "Break" }),
        _ => None,
    }
}

/// What `str::trim` returns for a text.
pub uninterp spec fn trim_of(s: Seq<char>) -> Seq<char>;

/// What `str::to_lowercase` returns for a text.
pub uninterp spec fn lower_of(s: Seq<char>) -> Seq<char>;

/// Relies on `str::trim`: the text without leading and trailing whitespace, which
/// depends on the characters alone.
#[verifier::external_body]
fn trim_text(s: &str) -> (r: &str)
    ensures
        r@ == trim_of(s@),
{
    s.trim()
}

/// Relies on `str::to_lowercase`: the lowercase form of the text, which depends on
/// the characters alone.
#[verifier::external_body]
fn lowercase(s: &str) -> (r: String)
    ensures
        r@ == lower_of(s@),
{
    s.to_lowercase()
}

/// An answer accepts when, trimmed, it is empty or, lowercased, it starts with `y`.
pub open spec fn affirmative(trimmed: Seq<char>, lowered: Seq<char>) -> bool {
    trimmed.len() == 0 || (lowered.len() > 0 && lowered[0] == 'y')
}

/// Decides an answer from its trimmed text and the lowercase form of that text.
pub fn is_affirmative(trimmed: &str, lowered: &str) -> (r: bool)
    ensures
        r == affirmative(trimmed@, lowered@),
{
    if trimmed.is_empty() {
        true
    } else if lowered.is_empty() {
        false
    } else {
        lowered.get_char(0) == 'y'
    }
}

/// Whether a line typed at a prompt accepts the session; an empty answer accepts.
pub fn accepts_answer(input: &str) -> (r: bool)
    ensures
        r == affirmative(trim_of(input@), lower_of(trim_of(input@))),
{
    let trimmed = trim_text(input);
    let lowered = lowercase(trimmed);
    is_affirmative(trimmed, lowered.as_str())
}

} // verus!
