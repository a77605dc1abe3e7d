use vstd::prelude::*;
use vstd::arithmetic::div_mod::lemma_div_is_ordered;
use vstd::arithmetic::mul::lemma_mul_inequality;
use crate::timer::{Timer, clock_text, decimal, percent_of, push_decimal};

verus! {

/// Number of cells in the progress bar.
pub const BAR_WIDTH: usize = 50;

/// Filled cells of the bar, `floor(progress * width / 100)`; a timer of no length fills it.
pub open spec fn filled_of(duration: nat, elapsed: nat) -> nat {
    if duration == 0 {
        BAR_WIDTH as nat
    } else {
        elapsed * (BAR_WIDTH as nat) / duration
    }
}

/// `n` copies of the character `c`.
pub open spec fn cells(n: nat, c: char) -> Seq<char> {
    Seq::new(n, |i: int| c)
}

/// One frame of a running session: the bar, its percentage, the time left and a status line.
pub struct Frame {
    pub filled: usize,
    pub empty: usize,
    pub percent: u64,
    pub time: String,
    pub message: String,
}

/// The status line of a session with the given label.
pub open spec fn message_of(label: Seq<char>) -> Seq<char> {
    "Current session: "@ + label
}

/// The frame that shows `timer` with the status line `message`.
pub open spec fn frame_matches(f: Frame, duration: nat, elapsed: nat, message: Seq<char>) -> bool {
    &&& f.filled as nat == filled_of(duration, elapsed)
    &&& f.empty as nat == BAR_WIDTH as nat - filled_of(duration, elapsed)
    &&& f.percent as nat == percent_of(duration, elapsed)
    &&& f.time@ == clock_text((duration - elapsed) as nat)
    &&& f.message@ == message
}

/// As a timer runs, the bar never loses a filled cell and never fills past its width.
pub proof fn lemma_fill_non_decreasing(duration: nat, e1: nat, e2: nat)
    requires
        e1 <= e2 <= duration,
    ensures
        filled_of(duration, e1) <= filled_of(duration, e2),
        filled_of(duration, e2) <= BAR_WIDTH as nat,
{
    if duration > 0 {
        lemma_mul_inequality(e1 as int, e2 as int, 50);
        lemma_mul_inequality(e2 as int, duration as int, 50);
        lemma_div_is_ordered((e1 * 50) as int, (e2 * 50) as int, duration as int);
        lemma_div_is_ordered((e2 * 50) as int, (duration * 50) as int, duration as int);
        assert(duration * 50 / duration == 50) by (nonlinear_arith)
            requires duration > 0;
    }
}

/// Redrawing at an unchanged progress gives the same bar and percentage, and, for
/// the same timer, the same time left: two frames of timers whose elapsed share of
/// the duration is equal have equal filled and empty cells and percentages, and
/// equal times where the timers are equal.
pub proof fn lemma_redraw_stable(
    f1: Frame,
    f2: Frame,
    d1: nat,
    e1: nat,
    d2: nat,
    e2: nat,
    message: Seq<char>,
)
    requires
        frame_matches(f1, d1, e1, message),
        frame_matches(f2, d2, e2, message),
        d1 > 0,
        d2 > 0,
        e1 * d2 == e2 * d1,
    ensures
        f1.filled == f2.filled,
        f1.empty == f2.empty,
        f1.percent == f2.percent,
        f1.message@ == f2.message@,
        d1 == d2 && e1 == e2 ==> f1.time@ == f2.time@,
{
    lemma_same_share_same_quotient(d1, e1, d2, e2, 50);
    lemma_same_share_same_quotient(d1, e1, d2, e2, 100);
}

/// Equal shares `e1 / d1 == e2 / d2` give equal truncated multiples `floor(e * k / d)`.
proof fn lemma_same_share_same_quotient(d1: nat, e1: nat, d2: nat, e2: nat, k: nat)
    requires
        d1 > 0,
        d2 > 0,
        e1 * d2 == e2 * d1,
    ensures
        e1 * k / d1 == e2 * k / d2,
{
    let q = (e1 * k / d1) as int;
    let x1 = (e1 * k) as int;
    let x2 = (e2 * k) as int;
    assert(q * d1 <= x1 < (q + 1) * d1) by (nonlinear_arith)
        requires
            q == x1 / (d1 as int),
            d1 > 0;
    assert(x1 * d2 == x2 * d1) by (nonlinear_arith)
        requires
            e1 * d2 == e2 * d1,
            x1 == e1 * k,
            x2 == e2 * k;
    assert(q * d2 <= x2 < (q + 1) * d2) by (nonlinear_arith)
        requires
            q * d1 <= x1 < (q + 1) * d1,
            x1 * d2 == x2 * d1,
            d1 > 0,
            d2 > 0;
    assert(x2 / (d2 as int) == q) by (nonlinear_arith)
        requires
            q * d2 <= x2 < (q + 1) * d2,
            d2 > 0;
}

/// `n` copies of `unit`, a one-character text.
fn repeat_text(n: usize, unit: &str) -> (r: String)
    requires
        unit@.len() == 1,
    ensures
        r@ == cells(n as nat, unit@[0]),
{
    let mut s = String::new();
    let mut i: usize = 0;
    while i < n
        invariant
            i <= n,
            unit@.len() == 1,
            s@ == cells(i as nat, unit@[0]),
        decreases n - i,
    {
        s.append(unit);
        i = i + 1;
        assert(s@ =~= cells(i as nat, unit@[0]));
    }
    s
}

/// The status line shown under the bar during a session named `label`.
pub fn session_message(label: &str) -> (r: String)
    ensures
        r@ == message_of(label@),
{
    let mut s = String::from_str("Current session: ");
    s.append(label);
    s
}

/// The hint line listing the keys that act during a session.
pub fn controls_hint() -> (r: &'static str)
    ensures
        r@ == "Controls: 'q' to quit, 'r' to reset timer"@,
{
    "Controls: 'q' to quit, 'r' to reset timer"
}

impl Frame {
    /// The frame that shows `timer` with the status line `message`.
    pub fn of(timer: &Timer, message: &str) -> (f: Frame)
        requires
            timer.wf(),
        ensures
            frame_matches(f, timer@.0, timer@.1, message@),
            f.filled + f.empty == BAR_WIDTH,
    {
        let d = timer.duration();
        let e = timer.elapsed();
        let filled: usize = if d == 0 {
            BAR_WIDTH
        } else {
            let q: u128 = (e as u128) * (BAR_WIDTH as u128) / (d as u128);
            proof {
                assert(e as nat * 50 <= d as nat * 50) by (nonlinear_arith)
                    requires e <= d;
                assert(q <= 50) by (nonlinear_arith)
                    requires
                        q == (e as nat * 50) / (d as nat),
                        e as nat * 50 <= d as nat * 50,
                        d > 0;
            }
            q as usize
        };
        Frame {
            filled,
            empty: BAR_WIDTH - filled,
            percent: timer.percent(),
            time: timer.format_time(),
            message: String::from_str(message),
        }
    }

    /// The filled part of the bar, one `=` per cell.
    pub fn filled_text(&self) -> (r: String)
        ensures
            r@ == cells(self.filled as nat, '='),
    {
        proof {
            reveal_strlit("=");
        }
        repeat_text(self.filled, "=")
    }

    /// The empty part of the bar, one `-` per cell.
    pub fn empty_text(&self) -> (r: String)
        ensures
            r@ == cells(self.empty as nat, '-'),
    {
        proof {
            reveal_strlit("-");
        }
        repeat_text(self.empty, "-")
    }

    /// What follows the bar: its closing bracket, the percentage and the time left.
    pub fn tail_text(&self) -> (r: String)
        ensures
            r@ == "] "@ + decimal(self.percent as nat) + "% "@ + self.time@,
    {
        proof {
            reveal_strlit("] ");
            reveal_strlit("% ");
        }
        let mut s = String::from_str("] ");
        push_decimal(&mut s, self.percent);
        s.append("% ");
        s.append(self.time.as_str());
        s
    }
}

} // verus!
