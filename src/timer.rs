use vstd::prelude::*;
use vstd::arithmetic::div_mod::{lemma_div_is_ordered, lemma_fundamental_div_mod};

verus! {

/// The character of a decimal digit.
pub open spec fn digit_char(d: nat) -> char {
    if d == 0 {
        '0'
    } else if d == 1 {
        '1'
    } else if d == 2 {
        '2'
    } else if d == 3 {
        '3'
    } else if d == 4 {
        '4'
    } else if d == 5 {
        '5'
    } else if d == 6 {
        '6'
    } else if d == 7 {
        '7'
    } else if d == 8 {
        '8'
    } else {
        '9'
    }
}

/// The decimal digits of `n`, most significant first, without leading zeros.
pub open spec fn decimal(n: nat) -> Seq<char>
    decreases n,
{
    if n < 10 {
        seq![digit_char(n)]
    } else {
        decimal(n / 10).push(digit_char(n % 10))
    }
}

/// `n` in decimal, padded with a leading zero to at least two digits.
pub open spec fn two_digits(n: nat) -> Seq<char> {
    if n < 10 {
        seq!['0', digit_char(n)]
    } else {
        decimal(n)
    }
}

/// A number of seconds shown as minutes and seconds, `MM:SS`.
pub open spec fn clock_text(secs: nat) -> Seq<char> {
    two_digits(secs / 60) + seq![':'] + two_digits(secs % 60)
}

/// Completion in whole percent, truncated; a timer of no length counts as complete.
pub open spec fn percent_of(duration: nat, elapsed: nat) -> nat {
    if duration == 0 {
        100
    } else {
        elapsed * 100 / duration
    }
}

/// The time shown never goes up as a timer runs: for a fixed duration, more elapsed
/// seconds show fewer minutes, or as many minutes and no more seconds.
pub proof fn lemma_clock_non_increasing(duration: nat, e1: nat, e2: nat)
    requires
        e1 <= e2 <= duration,
    ensures
        ({
            let r1 = (duration - e1) as nat;
            let r2 = (duration - e2) as nat;
            r1 / 60 > r2 / 60 || (r1 / 60 == r2 / 60 && r1 % 60 >= r2 % 60)
        }),
{
    let r1 = (duration - e1) as int;
    let r2 = (duration - e2) as int;
    lemma_div_is_ordered(r2, r1, 60);
    lemma_fundamental_div_mod(r1, 60);
    lemma_fundamental_div_mod(r2, 60);
}

/// A countdown over a fixed number of seconds, advanced one second per tick.
pub struct Timer {
    duration: u64,
    elapsed: u64,
}

impl View for Timer {
    type V = (nat, nat);

    /// The pair (duration, elapsed) in seconds.
    closed spec fn view(&self) -> (nat, nat) {
        (self.duration as nat, self.elapsed as nat)
    }
}

/// The text of one decimal digit.
fn digit_text(d: u64) -> (r: &'static str)
    requires
        d < 10,
    ensures
        r@ == seq![digit_char(d as nat)],
{
    proof {
        reveal_strlit("0");
        reveal_strlit("1");
        reveal_strlit("2");
        reveal_strlit("3");
        reveal_strlit("4");
        reveal_strlit("5");
        reveal_strlit("6");
        reveal_strlit("7");
        reveal_strlit("8");
        reveal_strlit("9");
    }
    match d {
        0 => "0",
        1 => "1",
        2 => "2",
        3 => "3",
        4 => "4",
        5 => "5",
        6 => "6",
        7 => "7",
        8 => "8",
        _ => "9",
    }
}

/// Appends `n` in decimal to `s`.
pub(crate) fn push_decimal(s: &mut String, n: u64)
    ensures
        final(s)@ == old(s)@ + decimal(n as nat),
    decreases n,
{
    if n >= 10 {
        push_decimal(s, n / 10);
    }
    s.append(digit_text(n % 10));
    assert(final(s)@ =~= old(s)@ + decimal(n as nat));
}

/// Appends `n` in decimal, padded to at least two digits, to `s`.
fn push_two_digits(s: &mut String, n: u64)
    ensures
        final(s)@ == old(s)@ + two_digits(n as nat),
{
    if n < 10 {
        proof {
            reveal_strlit("0");
        }
        s.append("0");
    }
    push_decimal(s, n);
    proof {
        reveal_with_fuel(decimal, 2);
    }
    assert(final(s)@ =~= old(s)@ + two_digits(n as nat));
}

impl Timer {
    /// Elapsed time never passes the duration.
    pub open spec fn wf(&self) -> bool {
        self@.1 <= self@.0
    }

    /// A timer for `duration` seconds, none of them elapsed yet.
    pub fn new(duration: u64) -> (t: Timer)
        ensures
            t.wf(),
            t@ == (duration as nat, 0nat),
    {
        Timer { duration, elapsed: 0 }
    }

    pub fn duration(&self) -> (r: u64)
        ensures
            r == self@.0,
    {
        self.duration
    }

    pub fn elapsed(&self) -> (r: u64)
        ensures
            r == self@.1,
    {
        self.elapsed
    }

    /// Whether the whole duration has elapsed.
    pub fn is_complete(&self) -> (r: bool)
        ensures
            r == (self@.1 >= self@.0),
    {
        self.elapsed >= self.duration
    }

    /// Counts one more second; the caller stops once the duration has elapsed.
    pub fn tick(&mut self)
        requires
            old(self).wf(),
            old(self)@.1 < old(self)@.0,
        ensures
            final(self).wf(),
            final(self)@ == (old(self)@.0, old(self)@.1 + 1),
    {
        self.elapsed = self.elapsed + 1;
    }

    /// Completion in whole percent, truncated toward zero.
    pub fn percent(&self) -> (r: u64)
        requires
            self.wf(),
        ensures
            r as nat == percent_of(self@.0, self@.1),
            r <= 100,
    {
        if self.duration == 0 {
            100
        } else {
            let p: u128 = (self.elapsed as u128) * 100 / (self.duration as u128);
            proof {
                assert(self.elapsed as nat * 100 <= self.duration as nat * 100) by (nonlinear_arith)
                    requires self.elapsed <= self.duration;
                assert(p <= 100) by (nonlinear_arith)
                    requires
                        p == (self.elapsed as nat * 100) / (self.duration as nat),
                        self.elapsed as nat * 100 <= self.duration as nat * 100,
                        self.duration > 0;
            }
            p as u64
        }
    }

    /// The time left, `duration - elapsed`, as zero-padded `MM:SS`.
    pub fn format_time(&self) -> (r: String)
        requires
            self.wf(),
        ensures
            r@ == clock_text((self@.0 - self@.1) as nat),
    {
        let remaining: u64 = self.duration - self.elapsed;
        let mut s = String::new();
        push_two_digits(&mut s, remaining / 60);
        proof {
            reveal_strlit(":");
        }
        s.append(":");
        push_two_digits(&mut s, remaining % 60);
        assert(s@ =~= clock_text(remaining as nat));
        s
    }
}

} // verus!
