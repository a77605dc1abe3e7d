use vstd::prelude::*;
use crate::timer::{Timer, clock_text, percent_of};

verus! {

/// Length of a work session, in seconds.
pub const WORK_TIME: u64 = 1500;

/// Length of a break session, in seconds.
pub const BREAK_TIME: u64 = 300;

/// How one session run ended.
#[derive(Clone, Copy, Debug, PartialEq, Eq, Structural)]
pub enum SessionOutcome {
    Completed,
    Quit,
    Reset,
}

/// A command typed during a session.
#[derive(Clone, Copy, Debug, PartialEq, Eq, Structural)]
pub enum KeyCommand {
    Quit,
    Reset,
}

/// What the loop does after one poll cycle.
#[derive(Clone, Copy, Debug, PartialEq, Eq, Structural)]
pub enum TickAction {
    /// Redraw the region below the header and poll again.
    Redraw,
    /// Leave the loop with this outcome.
    Finish(SessionOutcome),
}

/// What is shown once a session run has ended.
#[derive(Clone, Copy, Debug, PartialEq, Eq, Structural)]
pub enum Closing {
    /// The header, then the goodbye line.
    Farewell,
    /// The header, then the reset acknowledgment.
    ResetNotice,
    /// The terminal bell alone.
    Bell,
}

/// The command a key stands for: `q`/`Q` quits, `r`/`R` resets, others mean nothing.
pub open spec fn command_of(c: char) -> Option<KeyCommand> {
    if c == 'q' || c == 'Q' {
        Some(KeyCommand::Quit)
    } else if c == 'r' || c == 'R' {
        Some(KeyCommand::Reset)
    } else {
        None
    }
}

/// The outcome that a command ends a session with.
pub open spec fn outcome_of(cmd: KeyCommand) -> SessionOutcome {
    match cmd {
        KeyCommand::Quit => SessionOutcome::Quit,
        KeyCommand::Reset => SessionOutcome::Reset,
    }
}

/// One poll cycle on a timer `(duration, elapsed)`, given the key read in it, if any.
/// A command ends the run at once, without a tick; otherwise one second is counted
/// (none past the duration) and the run completes once the duration has elapsed.
pub open spec fn step_of(t: (nat, nat), key: Option<char>) -> ((nat, nat), TickAction) {
    if key is Some && command_of(key->0) is Some {
        (t, TickAction::Finish(outcome_of(command_of(key->0)->0)))
    } else {
        let e = if t.1 < t.0 { t.1 + 1 } else { t.1 };
        if e >= t.0 {
            ((t.0, e), TickAction::Finish(SessionOutcome::Completed))
        } else {
            ((t.0, e), TickAction::Redraw)
        }
    }
}

/// The timer `(duration, elapsed)` after `n` poll cycles in which no key was read.
pub open spec fn idle_cycles(t: (nat, nat), n: nat) -> (nat, nat)
    decreases n,
{
    if n == 0 {
        t
    } else {
        step_of(idle_cycles(t, (n - 1) as nat), None).0
    }
}

/// Idle cycles count one second each, up to the duration.
proof fn lemma_idle_cycles_count(duration: nat, n: nat)
    requires
        n <= duration,
    ensures
        idle_cycles((duration, 0), n) == (duration, n),
    decreases n,
{
    if n > 0 {
        lemma_idle_cycles_count(duration, (n - 1) as nat);
    }
}

/// A session of positive length in which no key is read ticks exactly `duration`
/// times: its last cycle completes the run, and the timer then stands at 100 percent
/// with `00:00` left.
pub proof fn lemma_full_run(duration: nat)
    requires
        duration > 0,
    ensures
        idle_cycles((duration, 0), duration) == (duration, duration),
        step_of(idle_cycles((duration, 0), (duration - 1) as nat), None).1 == TickAction::Finish(
            SessionOutcome::Completed,
        ),
        percent_of(duration, duration) == 100,
        clock_text((duration - duration) as nat) == seq!['0', '0', ':', '0', '0'],
{
    lemma_idle_cycles_count(duration, duration);
    lemma_idle_cycles_count(duration, (duration - 1) as nat);
    assert(duration * 100 / duration == 100) by (nonlinear_arith)
        requires duration > 0;
    assert(clock_text(0) =~= seq!['0', '0', ':', '0', '0']);
}

/// A quit typed before the first tick ends the session with `Quit`, nothing elapsed.
pub proof fn lemma_quit_before_tick(duration: nat, c: char)
    requires
        command_of(c) == Some(KeyCommand::Quit),
    ensures
        step_of((duration, 0), Some(c)) == ((duration, 0nat), TickAction::Finish(
            SessionOutcome::Quit,
        )),
{
}

/// Decodes a key typed during a session.
pub fn decode_key(c: char) -> (r: Option<KeyCommand>)
    ensures
        r == command_of(c),
{
    if c == 'q' || c == 'Q' {
        Some(KeyCommand::Quit)
    } else if c == 'r' || c == 'R' {
        Some(KeyCommand::Reset)
    } else {
        None
    }
}

/// Runs one poll cycle of a session: `key` is the key read within the cycle's timeout.
pub fn run_step(timer: &mut Timer, key: Option<char>) -> (r: TickAction)
    requires
        old(timer).wf(),
    ensures
        final(timer).wf(),
        (final(timer)@, r) == step_of(old(timer)@, key),
{
    let cmd = match key {
        Some(c) => decode_key(c),
        None => None,
    };
    match cmd {
        Some(KeyCommand::Quit) => TickAction::Finish(SessionOutcome::Quit),
        Some(KeyCommand::Reset) => TickAction::Finish(SessionOutcome::Reset),
        None => {
            if !timer.is_complete() {
                timer.tick();
            }
            if timer.is_complete() {
                TickAction::Finish(SessionOutcome::Completed)
            } else {
                TickAction::Redraw
            }
        },
    }
}

/// What to show when a session run ends with `outcome`.
pub fn closing_of(outcome: SessionOutcome) -> (r: Closing)
    ensures
        r == (match outcome {
            SessionOutcome::Quit => Closing::Farewell,
            SessionOutcome::Reset => Closing::ResetNotice,
            SessionOutcome::Completed => Closing::Bell,
        }),
{
    match outcome {
        SessionOutcome::Quit => Closing::Farewell,
        SessionOutcome::Reset => Closing::ResetNotice,
        SessionOutcome::Completed => Closing::Bell,
    }
}

} // verus!
