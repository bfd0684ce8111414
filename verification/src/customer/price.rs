//! Monetary amounts, written on the wire as `$D.DD`.

use vstd::prelude::*;
use vstd::std_specs::convert::TryFromSpecImpl;
use crate::error::ApiError;
use crate::text::{
    at_most, chars_of, decimal_text, is_digit, lemma_decimal_text, lemma_padded_decimal, padded_decimal,
    parse_unsigned, pow10, push_decimal, push_padded_decimal, unsigned_value,
};

verus! {

/// The number of characters of `s` that stand before its first `.`.
pub open spec fn group_len(s: Seq<char>) -> nat
    decreases s.len(),
{
    if s.len() == 0 || s[0] == '.' {
        0
    } else {
        1 + group_len(s.skip(1))
    }
}

/// The part of `s` before its first `.`: all of `s` where it holds none.
pub open spec fn first_group(s: Seq<char>) -> Seq<char> {
    s.take(group_len(s) as int)
}

/// The part of `s` behind its first `.`, where it holds one.
pub open spec fn after_first_group(s: Seq<char>) -> Option<Seq<char>> {
    if group_len(s) < s.len() {
        Some(s.skip(group_len(s) as int + 1))
    } else {
        None
    }
}

/// What a group of a price spells: an unsigned integer of 32 bits.
pub open spec fn group_value(s: Seq<char>) -> Option<nat> {
    at_most(unsigned_value(s), u32::MAX as nat)
}

/// `text` without one leading `$`, where it has one.
pub open spec fn without_dollar(text: Seq<char>) -> Seq<char> {
    if text.len() > 0 && text[0] == '$' {
        text.skip(1)
    } else {
        text
    }
}

/// The cents that `text` spells as a price.
///
/// The first group counts hundredfold and the second once; a missing second
/// group counts as zero, and what follows a second `.` is not read.
pub open spec fn price_value(text: Seq<char>) -> Option<nat> {
    let body = without_dollar(text);
    let whole = group_value(first_group(body));
    let cents = match after_first_group(body) {
        Some(rest) => group_value(first_group(rest)),
        None => Some(0nat),
    };
    match (whole, cents) {
        (Some(w), Some(c)) => if w * 100 + c <= u32::MAX {
            Some(w * 100 + c)
        } else {
            None
        },
        _ => None,
    }
}

/// How an amount of `cents` is written: `$`, the dollars, `.`, and two digits of cents.
pub open spec fn price_text(cents: nat) -> Seq<char> {
    seq!['$'] + decimal_text(cents / 100) + seq!['.'] + padded_decimal(cents % 100, 2)
}

/// `group_len` is the place of the first `.`, or the length where there is none.
pub proof fn lemma_group_len(s: Seq<char>, n: int)
    requires
        0 <= n <= s.len(),
        forall|j: int| 0 <= j < n ==> s[j] != '.',
        n < s.len() ==> s[n] == '.',
    ensures
        group_len(s) == n,
    decreases s.len(),
{
    if n > 0 {
        lemma_group_len(s.skip(1), n - 1);
    }
}

/// Reading what was written gives the amount back: for every amount `cents` that a
/// price can hold, `price_text(cents)` spells `cents`.
pub proof fn price_round_trip(cents: nat)
    requires
        cents <= u32::MAX,
    ensures
        price_value(price_text(cents)) == Some(cents),
{
    let dollars = decimal_text(cents / 100);
    let tail = padded_decimal(cents % 100, 2);
    let body = dollars + seq!['.'] + tail;
    lemma_decimal_text(cents / 100);
    assert(pow10(2) == 100) by {
        reveal_with_fuel(pow10, 3);
    }
    lemma_padded_decimal(cents % 100, 2);
    assert(without_dollar(price_text(cents)) =~= body);

    assert forall|j: int| 0 <= j < dollars.len() implies body[j] != '.' by {
        assert(is_digit(dollars[j]));
    }
    lemma_group_len(body, dollars.len() as int);
    assert(first_group(body) =~= dollars);
    assert(is_digit(dollars[0]));

    assert(body.skip(dollars.len() as int + 1) =~= tail);
    assert forall|j: int| 0 <= j < 2 implies tail[j] != '.' by {
        assert(is_digit(tail[j]));
    }
    lemma_group_len(tail, 2);
    assert(first_group(tail) =~= tail);
    assert(is_digit(tail[0]));
}

/// A monetary amount in whole cents.
#[derive(Clone, Copy, Debug, PartialEq, Eq, Structural)]
pub struct Price(pub u32);

impl View for Price {
    type V = nat;

    open spec fn view(&self) -> nat {
        self.0 as nat
    }
}

/// What reading `text` as a price gives: the price that it spells, or a format error.
pub open spec fn parsed_price(text: Seq<char>) -> Result<Price, ApiError> {
    match price_value(text) {
        Some(cents) => Ok(Price(cents as u32)),
        None => Err(ApiError::Format),
    }
}

impl core::str::FromStr for Price {
    type Err = ApiError;

    /// Reads a price in its wire format, as `Price::parse` does.
    fn from_str(text: &str) -> (r: Result<Price, ApiError>)
        ensures
            r == parsed_price(text@),
    {
        Price::parse(text)
    }
}

impl TryFrom<String> for Price {
    type Error = ApiError;

    /// Reads a price in its wire format, as `Price::parse` does.
    fn try_from(text: String) -> (r: Result<Price, ApiError>) {
        Price::parse(text.as_str())
    }
}

impl TryFromSpecImpl<String> for Price {
    open spec fn obeys_try_from_spec() -> bool {
        true
    }

    open spec fn try_from_spec(text: String) -> Result<Price, ApiError> {
        parsed_price(text@)
    }
}

/// The place of the first `.` of `s` at or behind `from`, or the length of `s`.
fn group_end(s: &Vec<char>, from: usize) -> (end: usize)
    requires
        from <= s.len(),
    ensures
        from <= end <= s.len(),
        end - from == group_len(s@.skip(from as int)),
{
    let mut end: usize = from;
    while end < s.len() && s[end] != '.'
        invariant
            from <= end <= s.len(),
            forall|j: int| from <= j < end ==> s[j] != '.',
        decreases s.len() - end,
    {
        end += 1;
    }
    proof {
        lemma_group_len(s@.skip(from as int), end - from);
    }
    end
}

impl Price {
    /// The amount in cents.
    pub fn cents(&self) -> (c: u32)
        ensures
            c == self@,
    {
        self.0
    }

    /// Reads a price in its wire format.
    pub fn parse(text: &str) -> (r: Result<Price, ApiError>)
        ensures
            r == parsed_price(text@),
            match r {
                Ok(p) => price_value(text@) == Some(p@),
                Err(e) => e == ApiError::Format && price_value(text@) is None,
            },
    {
        let s = chars_of(text);
        let start: usize = if s.len() > 0 && s[0] == '$' {
            1
        } else {
            0
        };
        let ghost body = without_dollar(text@);
        assert(body =~= s@.skip(start as int));
        let end = group_end(&s, start);
        assert(first_group(body) =~= s@.subrange(start as int, end as int));
        let whole = match parse_unsigned(&s, start, end, 0xffff_ffff) {
            Some(w) => w,
            None => { return Err(ApiError::Format); },
        };
        let cents: u64 = if end < s.len() {
            let ghost rest = body.skip(end - start + 1);
            assert(rest =~= s@.skip(end + 1));
            let stop = group_end(&s, end + 1);
            assert(first_group(rest) =~= s@.subrange(end + 1, stop as int));
            match parse_unsigned(&s, end + 1, stop, 0xffff_ffff) {
                Some(c) => c,
                None => { return Err(ApiError::Format); },
            }
        } else {
            0
        };
        let value: u64 = whole * 100 + cents;
        if value > 0xffff_ffff {
            return Err(ApiError::Format);
        }
        Ok(Price(value as u32))
    }

    /// Writes the price in its wire format.
    pub fn to_display_string(&self) -> (out: String)
        ensures
            out@ == price_text(self@),
    {
        let mut out = String::new();
        out.push('$');
        push_decimal(&mut out, (self.0 / 100) as u64);
        out.push('.');
        push_padded_decimal(&mut out, (self.0 % 100) as u64, 2);
        assert(out@ =~= price_text(self@));
        out
    }
}

} // verus!
