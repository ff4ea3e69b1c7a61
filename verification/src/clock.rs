//! A countdown clock that stores remaining time as whole minutes and whole
//! seconds, each in 0..60, so the total is always a non-negative multiple of
//! one thousand milliseconds below one hour.

use vstd::prelude::*;
use vstd::arithmetic::div_mod::{
    lemma_div_by_multiple, lemma_div_denominator, lemma_div_is_ordered, lemma_fundamental_div_mod,
    lemma_mod_multiples_basic, lemma_small_mod,
};
use vstd::string::StringExecFns;

verus! {

/// The character that renders a single decimal digit.
pub open spec fn digit_char(d: int) -> char {
    if d == 0 {
        '0'
    } else if d == 1 {
        '1'
    } else if d == 2 {
        '2'
    } else if d == 3 {
        '3'
    } else if d == 4 {
        '4'
    } else if d == 5 {
        '5'
    } else if d == 6 {
        '6'
    } else if d == 7 {
        '7'
    } else if d == 8 {
        '8'
    } else {
        '9'
    }
}

/// The numeric value of a decimal digit character, and -1 for anything else.
pub open spec fn digit_val(c: char) -> int {
    if c == '0' {
        0
    } else if c == '1' {
        1
    } else if c == '2' {
        2
    } else if c == '3' {
        3
    } else if c == '4' {
        4
    } else if c == '5' {
        5
    } else if c == '6' {
        6
    } else if c == '7' {
        7
    } else if c == '8' {
        8
    } else if c == '9' {
        9
    } else {
        -1
    }
}

/// A number below one hundred, zero-padded to exactly two decimal digits.
pub open spec fn spec_two_digits(n: int) -> Seq<char> {
    seq![digit_char(n / 10), digit_char(n % 10)]
}

/// Remaining time of one interval, as whole minutes and whole seconds.
pub struct Clock {
    minutes: u32,
    seconds: u32,
}

/// The one-character string for a decimal digit.
fn digit_str(d: u32) -> (s: &'static str)
    requires
        d < 10,
    ensures
        s@ == seq![digit_char(d as int)],
{
    let s: &'static str = if d == 0 {
        "0"
    } else if d == 1 {
        "1"
    } else if d == 2 {
        "2"
    } else if d == 3 {
        "3"
    } else if d == 4 {
        "4"
    } else if d == 5 {
        "5"
    } else if d == 6 {
        "6"
    } else if d == 7 {
        "7"
    } else if d == 8 {
        "8"
    } else {
        "9"
    };
    proof {
        reveal_strlit("0");
        reveal_strlit("1");
        reveal_strlit("2");
        reveal_strlit("3");
        reveal_strlit("4");
        reveal_strlit("5");
        reveal_strlit("6");
        reveal_strlit("7");
        reveal_strlit("8");
        reveal_strlit("9");
        assert(s@ =~= seq![digit_char(d as int)]);
    }
    s
}

impl Clock {
    /// The minutes field of the stored time.
    pub closed spec fn spec_minutes(self) -> u32 {
        self.minutes
    }

    /// The seconds field of the stored time.
    pub closed spec fn spec_seconds(self) -> u32 {
        self.seconds
    }

    /// Both fields stay below sixty: the invariant every method keeps.
    pub open spec fn wf(self) -> bool {
        self.spec_minutes() < 60 && self.spec_seconds() < 60
    }

    /// The stored time as milliseconds.
    pub open spec fn total_ms(self) -> int {
        self.spec_minutes() * 60000 + self.spec_seconds() * 1000
    }

    /// The stored time rendered as zero-padded minutes, a colon, and
    /// zero-padded seconds.
    pub open spec fn spec_formatted(self) -> Seq<char> {
        spec_two_digits(self.spec_minutes() as int) + seq![':'] + spec_two_digits(
            self.spec_seconds() as int,
        )
    }

    /// A fresh clock with no time on it.
    pub fn new() -> (c: Clock)
        ensures
            c.spec_minutes() == 0,
            c.spec_seconds() == 0,
            c.wf(),
    {
        Clock { minutes: 0, seconds: 0 }
    }

    /// Sets the remaining time from a millisecond count: minutes become
    /// (ms / 60000) mod 60 and seconds (ms / 1000) mod 60, so a duration of
    /// an hour or more silently truncates the minutes field.
    pub fn set_time_ms(&mut self, ms: u32)
        ensures
            final(self).spec_minutes() == (ms / 60000) % 60,
            final(self).spec_seconds() == (ms / 1000) % 60,
            final(self).wf(),
    {
        self.minutes = (ms / (1000 * 60)) % 60;
        self.seconds = (ms / 1000) % 60;
    }

    /// Sets the remaining time to a whole number of minutes: the minutes
    /// field becomes that number modulo sixty and the seconds field zero.
    pub fn set_time_minutes(&mut self, minutes: u32)
        requires
            minutes * 60000 <= u32::MAX,
        ensures
            final(self).spec_minutes() == minutes % 60,
            final(self).spec_seconds() == 0,
            final(self).wf(),
    {
        proof {
            lemma_div_by_multiple(minutes as int, 60000);
            assert(minutes * 60000 == (minutes * 60) * 1000) by (nonlinear_arith);
            lemma_div_by_multiple(minutes * 60, 1000);
            lemma_mod_multiples_basic(minutes as int, 60);
        }
        self.set_time_ms(minutes * 60000);
    }

    /// The stored time as a millisecond count.
    pub fn get_ms_from_time(&mut self) -> (ms: u32)
        requires
            old(self).wf(),
        ensures
            *final(self) == *old(self),
            ms == old(self).total_ms(),
    {
        (self.minutes * 60000) + (self.seconds * 1000)
    }

    /// Takes one second off the remaining time. The caller must leave at
    /// least one second on the clock.
    pub fn decrement_one_second(&mut self)
        requires
            old(self).wf(),
            old(self).total_ms() >= 1000,
        ensures
            final(self).wf(),
            final(self).total_ms() == old(self).total_ms() - 1000,
    {
        let ghost t = old(self).total_ms();
        let ghost m = old(self).spec_minutes() as int;
        let ghost sec = old(self).spec_seconds() as int;
        let mut time_in_ms = self.get_ms_from_time();
        time_in_ms = time_in_ms - 1000;
        proof {
            lemma_mod_multiples_basic(m * 60 + sec - 1, 1000);
            assert((m * 60 + sec - 1) * 1000 == t - 1000) by (nonlinear_arith)
                requires t == m * 60000 + sec * 1000;
        }
        self.set_time_ms(time_in_ms);
        proof {
            lemma_fields_recompose_total(t - 1000);
        }
    }

    /// The stored time rendered as `MM:SS`, both fields zero-padded to two
    /// digits.
    pub fn get_time(&self) -> (s: String)
        requires
            self.wf(),
        ensures
            s@ == self.spec_formatted(),
    {
        proof {
            lemma_div_is_ordered(self.spec_minutes() as int, 59, 10);
            lemma_div_is_ordered(self.spec_seconds() as int, 59, 10);
        }
        let mut s = String::new();
        s.append(digit_str(self.minutes / 10));
        s.append(digit_str(self.minutes % 10));
        s.append(":");
        s.append(digit_str(self.seconds / 10));
        s.append(digit_str(self.seconds % 10));
        proof {
            reveal_strlit(":");
            assert(s@ =~= self.spec_formatted());
        }
        s
    }
    /// Runs the countdown to completion: decrements one second at a time,
    /// checking for zero only after each decrement as the interactive loop
    /// does, and returns how many ticks that took. The caller must leave at
    /// least one second on the clock.
    pub fn countdown(&mut self) -> (ticks: u32)
        requires
            old(self).wf(),
            old(self).total_ms() >= 1000,
        ensures
            final(self).wf(),
            final(self).total_ms() == 0,
            ticks * 1000 == old(self).total_ms(),
    {
        let mut ticks: u32 = 0;
        loop
            invariant
                old(self).wf(),
                self.wf(),
                self.total_ms() >= 1000,
                ticks * 1000 + self.total_ms() == old(self).total_ms(),
                ticks <= 3600,
            decreases self.total_ms(),
        {
            self.decrement_one_second();
            ticks = ticks + 1;
            proof {
                lemma_total_is_whole_seconds(*self);
            }
            if self.get_ms_from_time() == 0 {
                return ticks;
            }
        }
    }
}

/// A well-formed clock holds a whole number of seconds: its millisecond total
/// is a multiple of one thousand.
proof fn lemma_total_is_whole_seconds(c: Clock)
    ensures
        c.total_ms() % 1000 == 0,
{
    let m = c.spec_minutes() as int;
    let sec = c.spec_seconds() as int;
    lemma_mod_multiples_basic(m * 60 + sec, 1000);
    assert((m * 60 + sec) * 1000 == c.total_ms()) by (nonlinear_arith)
        requires c.total_ms() == m * 60000 + sec * 1000;
}

/// Law: after the clock is set from a millisecond count, the rendered text is
/// five characters long, has a colon in the middle, and its two digit pairs
/// read, zero-padded, as (ms / 60000) mod 60 and (ms / 1000) mod 60.
pub proof fn lemma_format_after_set_ms(ms: u32, c: Clock)
    requires
        c.spec_minutes() == (ms / 60000) % 60,
        c.spec_seconds() == (ms / 1000) % 60,
    ensures
        c.spec_formatted().len() == 5,
        c.spec_formatted()[2] == ':',
        digit_val(c.spec_formatted()[0]) * 10 + digit_val(c.spec_formatted()[1]) == (ms / 60000)
            % 60,
        digit_val(c.spec_formatted()[3]) * 10 + digit_val(c.spec_formatted()[4]) == (ms / 1000)
            % 60,
{
    lemma_two_digits_reads_back(c.spec_minutes() as int);
    lemma_two_digits_reads_back(c.spec_seconds() as int);
}

/// Reading the two zero-padded digit characters of a number below one hundred
/// gives the number back.
proof fn lemma_two_digits_reads_back(n: int)
    requires
        0 <= n < 100,
    ensures
        digit_val(spec_two_digits(n)[0]) * 10 + digit_val(spec_two_digits(n)[1]) == n,
{
    lemma_div_is_ordered(n, 99, 10);
    assert(digit_val(digit_char(n / 10)) == n / 10);
    assert(digit_val(digit_char(n % 10)) == n % 10);
    lemma_fundamental_div_mod(n, 10);
}

/// Splitting a millisecond count below one hour into the minutes and seconds
/// fields and summing them back loses exactly the fraction of a second.
proof fn lemma_fields_recompose_total(ms: int)
    requires
        0 <= ms < 3600000,
    ensures
        ((ms / 60000) % 60) * 60000 + ((ms / 1000) % 60) * 1000 == ms - ms % 1000,
{
    lemma_div_is_ordered(ms, 3599999, 60000);
    assert(3599999int / 60000 == 59);
    lemma_small_mod((ms / 60000) as nat, 60);
    lemma_div_denominator(ms, 1000, 60);
    let k = ms / 1000;
    lemma_fundamental_div_mod(ms, 1000);
    lemma_fundamental_div_mod(k, 60);
    assert((k / 60) * 60000 + (k % 60) * 1000 == 1000 * k) by (nonlinear_arith)
        requires k == 60 * (k / 60) + (k % 60);
}

} // verus!
