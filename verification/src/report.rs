//! What a successful run reports: the text of the score readout and the
//! number of dispatches, one line each, in that order.

use vstd::prelude::*;
use vstd::string::*;

verus! {

/// The character of one decimal digit.
pub open spec fn digit(d: nat) -> char {
    if d == 0 {
        '0'
    } else if d == 1 {
        '1'
    } else if d == 2 {
        '2'
    } else if d == 3 {
        '3'
    } else if d == 4 {
        '4'
    } else if d == 5 {
        '5'
    } else if d == 6 {
        '6'
    } else if d == 7 {
        '7'
    } else if d == 8 {
        '8'
    } else {
        '9'
    }
}

/// A number in decimal, most significant digit first, without leading
/// zeros; zero is `"0"`.
pub open spec fn decimal(n: nat) -> Seq<char>
    decreases n,
{
    if n < 10 {
        seq![digit(n)]
    } else {
        decimal(n / 10).push(digit(n % 10))
    }
}

fn digit_str(d: u64) -> (s: &'static str)
    requires
        d < 10,
    ensures
        s@ == seq![digit(d as nat)],
{
    proof {
        reveal_strlit("0");
        reveal_strlit("1");
        reveal_strlit("2");
        reveal_strlit("3");
        reveal_strlit("4");
        reveal_strlit("5");
        reveal_strlit("6");
        reveal_strlit("7");
        reveal_strlit("8");
        reveal_strlit("9");
    }
    if d == 0 {
        "0"
    } else if d == 1 {
        "1"
    } else if d == 2 {
        "2"
    } else if d == 3 {
        "3"
    } else if d == 4 {
        "4"
    } else if d == 5 {
        "5"
    } else if d == 6 {
        "6"
    } else if d == 7 {
        "7"
    } else if d == 8 {
        "8"
    } else {
        "9"
    }
}

/// Writes a number in decimal.
pub fn decimal_string(n: u64) -> (s: String)
    ensures
        s@ == decimal(n as nat),
{
    let mut rest: u64 = n / 10;
    let mut s = String::from_str(digit_str(n % 10));
    while rest > 0
        invariant
            decimal(n as nat) == (if rest > 0 {
                decimal(rest as nat) + s@
            } else {
                s@
            }),
        decreases rest,
    {
        let ghost tail = s@;
        let ghost d = digit((rest % 10) as nat);
        s = String::from_str(digit_str(rest % 10)).concat(s.as_str());
        proof {
            assert(s@ == seq![d] + tail);
            if rest >= 10 {
                assert(decimal(rest as nat) == decimal((rest / 10) as nat).push(d));
                assert(decimal((rest / 10) as nat).push(d) + tail == decimal((rest / 10) as nat) + (
                seq![d] + tail));
            } else {
                assert(decimal(rest as nat) == seq![d]);
            }
        }
        rest = rest / 10;
    }
    s
}

/// The lines that report a readout text and a dispatch count: the text as
/// it was read, then the count in decimal.
pub open spec fn report_lines(readout: Seq<char>, dispatches: nat) -> Seq<Seq<char>> {
    seq![readout, decimal(dispatches)]
}

/// What each of some strings holds.
pub open spec fn texts(lines: Seq<String>) -> Seq<Seq<char>> {
    lines.map_values(|line: String| line@)
}

/// What a run that went through reports.
#[derive(Clone, PartialEq, Eq, Debug)]
pub struct Report {
    /// The text of the score readout.
    pub readout: String,
    /// How many dispatches succeeded.
    pub dispatches: u64,
}

impl Report {
    /// The lines to print, in order.
    pub fn lines(&self) -> (lines: Vec<String>)
        ensures
            texts(lines@) == report_lines(self.readout@, self.dispatches as nat),
    {
        let mut lines: Vec<String> = Vec::new();
        lines.push(self.readout.clone());
        lines.push(decimal_string(self.dispatches));
        assert(texts(lines@) =~= report_lines(self.readout@, self.dispatches as nat));
        lines
    }
}

} // verus!
