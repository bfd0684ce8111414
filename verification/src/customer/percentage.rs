//! Percentages, a bare integer on the wire and `NN%` on display.

use vstd::prelude::*;
use vstd::std_specs::convert::FromSpec;
use vstd::std_specs::convert::FromSpecImpl;
use crate::text::{integer_text, push_integer};

verus! {

/// A percentage as the wire gives it: any integer, with no bound enforced.
#[derive(Clone, Copy, Debug, PartialEq, Eq, Structural)]
pub struct Percentage(pub i64);

impl View for Percentage {
    type V = int;

    open spec fn view(&self) -> int {
        self.0 as int
    }
}

/// How a percentage of `n` is displayed: the number, then `%`.
pub open spec fn percentage_text(n: int) -> Seq<char> {
    integer_text(n) + seq!['%']
}

impl From<i64> for Percentage {
    /// The percentage that the wire integer `percent` stands for.
    fn from(percent: i64) -> (p: Percentage) {
        Percentage(percent)
    }
}

impl FromSpecImpl<i64> for Percentage {
    open spec fn obeys_from_spec() -> bool {
        true
    }

    open spec fn from_spec(percent: i64) -> Percentage {
        Percentage(percent)
    }
}

impl From<u32> for Percentage {
    /// The percentage that the unsigned wire integer `percent` stands for.
    fn from(percent: u32) -> (p: Percentage) {
        Percentage(percent as i64)
    }
}

impl FromSpecImpl<u32> for Percentage {
    open spec fn obeys_from_spec() -> bool {
        true
    }

    open spec fn from_spec(percent: u32) -> Percentage {
        Percentage(percent as i64)
    }
}

impl From<Percentage> for i64 {
    /// The wire integer of a percentage.
    fn from(p: Percentage) -> (percent: i64) {
        p.0
    }
}

impl FromSpecImpl<Percentage> for i64 {
    open spec fn obeys_from_spec() -> bool {
        true
    }

    open spec fn from_spec(p: Percentage) -> i64 {
        p.0
    }
}

/// Encoding a decoded wire integer gives it back, whatever its sign.
pub proof fn percentage_round_trip(n: i64)
    ensures
        <i64 as FromSpec<Percentage>>::from_spec(<Percentage as FromSpec<i64>>::from_spec(n))
            == n,
        <Percentage as FromSpec<i64>>::from_spec(n)@ == n,
{
}

impl Percentage {
    /// Writes the percentage for display.
    pub fn to_display_string(&self) -> (out: String)
        ensures
            out@ == percentage_text(self@),
    {
        let mut out = String::new();
        push_integer(&mut out, self.0);
        out.push('%');
        out
    }
}

} // verus!
