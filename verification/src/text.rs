//! Character-level helpers shared by the scalar codecs.

use vstd::prelude::*;

verus! {

/// `String::push`: the string afterwards is the string before with `c` at its end.
pub assume_specification[ String::push ](s: &mut String, c: char)
    ensures
        final(s)@ == old(s)@.push(c),
;

/// `str::eq`, the `==` of string slices: whether the two hold the same characters.
pub assume_specification[ <str as PartialEq>::eq ](a: &str, b: &str) -> (same: bool)
    ensures
        same == (a@ == b@),
;

/// The characters of `s`, in order.
pub fn chars_of(s: &str) -> (out: Vec<char>)
    ensures
        out@ == s@,
{
    let mut out: Vec<char> = Vec::new();
    for c in it: s.chars()
        invariant
            out@ == it.seq().take(it.index() as int),
    {
        out.push(c);
    }
    out
}

/// Whether `c` is one of the ten decimal digits.
pub open spec fn is_digit(c: char) -> bool {
    '0' <= c && c <= '9'
}

/// The number that the digit `c` stands for.
pub open spec fn digit_value(c: char) -> nat
    recommends
        is_digit(c),
{
    (c as int - '0' as int) as nat
}

/// The digit that stands for `d`.
pub open spec fn digit_char(d: nat) -> char
    recommends
        d < 10,
{
    (d + '0' as nat) as char
}

/// Whether every character of `s` is a decimal digit.
pub open spec fn all_digits(s: Seq<char>) -> bool {
    forall|i: int| 0 <= i < s.len() ==> is_digit(#[trigger] s[i])
}

/// The number that the digits of `s` spell in base ten, most significant first.
pub open spec fn decimal_value(s: Seq<char>) -> nat
    decreases s.len(),
{
    if s.len() == 0 {
        0
    } else {
        decimal_value(s.drop_last()) * 10 + digit_value(s.last())
    }
}

/// The shortest base-ten spelling of `n`.
pub open spec fn decimal_text(n: nat) -> Seq<char>
    decreases n,
{
    if n < 10 {
        seq![digit_char(n)]
    } else {
        decimal_text(n / 10).push(digit_char(n % 10))
    }
}

/// Ten to the power of `width`.
pub open spec fn pow10(width: nat) -> nat
    decreases width,
{
    if width == 0 {
        1
    } else {
        10 * pow10((width - 1) as nat)
    }
}

/// The last `width` digits of `n`, with zeros in front where `n` has fewer.
pub open spec fn padded_decimal(n: nat, width: nat) -> Seq<char>
    decreases width,
{
    if width == 0 {
        Seq::<char>::empty()
    } else {
        padded_decimal(n / 10, (width - 1) as nat).push(digit_char(n % 10))
    }
}

/// The base-ten spelling of an integer: `-` before a negative one, no sign otherwise.
pub open spec fn integer_text(n: int) -> Seq<char> {
    if n < 0 {
        seq!['-'] + decimal_text((-n) as nat)
    } else {
        decimal_text(n as nat)
    }
}

/// What a run of digits spells: one digit or more, and nothing else.
pub open spec fn digits_value(s: Seq<char>) -> Option<nat> {
    if s.len() > 0 && all_digits(s) {
        Some(decimal_value(s))
    } else {
        None
    }
}

/// What an unsigned integer literal spells: an optional `+`, then one digit or more.
pub open spec fn unsigned_value(s: Seq<char>) -> Option<nat> {
    if s.len() > 0 && s[0] == '+' {
        digits_value(s.skip(1))
    } else {
        digits_value(s)
    }
}

/// `value` where it is at most `max`.
pub open spec fn at_most(value: Option<nat>, max: nat) -> Option<nat> {
    match value {
        Some(v) => if v <= max {
            Some(v)
        } else {
            None
        },
        None => None,
    }
}

/// A digit and its value convert into each other.
pub proof fn lemma_digit_round_trip(d: nat)
    requires
        d < 10,
    ensures
        is_digit(digit_char(d)),
        digit_value(digit_char(d)) == d,
{
}

/// The spelling of a number is made of digits, is not empty, and spells that number.
pub proof fn lemma_decimal_text(n: nat)
    ensures
        decimal_text(n).len() >= 1,
        all_digits(decimal_text(n)),
        decimal_value(decimal_text(n)) == n,
    decreases n,
{
    lemma_digit_round_trip(n % 10);
    if n < 10 {
        let s = decimal_text(n);
        assert(s.drop_last() =~= Seq::<char>::empty());
        assert(decimal_value(s.drop_last()) == 0);
    } else {
        lemma_decimal_text(n / 10);
        let s = decimal_text(n);
        assert(s.drop_last() =~= decimal_text(n / 10));
    }
}

/// A number below a hundred is spelled with one digit or with two.
pub proof fn lemma_decimal_text_len(n: nat)
    requires
        n < 100,
    ensures
        decimal_text(n).len() == if n < 10 {
            1nat
        } else {
            2nat
        },
{
    reveal_with_fuel(decimal_text, 2);
}

/// A number that fits in `width` digits is spelled by its padded form, which has
/// exactly `width` digits.
pub proof fn lemma_padded_decimal(n: nat, width: nat)
    requires
        n < pow10(width),
    ensures
        padded_decimal(n, width).len() == width,
        all_digits(padded_decimal(n, width)),
        decimal_value(padded_decimal(n, width)) == n,
    decreases width,
{
    if width > 0 {
        lemma_padded_decimal(n / 10, (width - 1) as nat);
        lemma_digit_round_trip(n % 10);
        let s = padded_decimal(n, width);
        assert(s.drop_last() =~= padded_decimal(n / 10, (width - 1) as nat));
    }
}

/// A run of digits spells less than ten to the power of its length.
pub proof fn lemma_decimal_bound(s: Seq<char>)
    requires
        all_digits(s),
    ensures
        decimal_value(s) < pow10(s.len()),
    decreases s.len(),
{
    if s.len() > 0 {
        assert(is_digit(s.last()));
        assert(all_digits(s.drop_last())) by {
            assert forall|i: int| 0 <= i < s.drop_last().len() implies is_digit(
                #[trigger] s.drop_last()[i],
            ) by {
                assert(s.drop_last()[i] == s[i]);
            }
        }
        lemma_decimal_bound(s.drop_last());
    }
}

/// A prefix of a digit string spells no more than the whole string.
pub proof fn lemma_decimal_prefix(s: Seq<char>, k: int)
    requires
        0 <= k <= s.len(),
    ensures
        decimal_value(s.take(k)) <= decimal_value(s),
    decreases s.len(),
{
    if k == s.len() {
        assert(s.take(k) =~= s);
    } else {
        lemma_decimal_prefix(s.drop_last(), k);
        assert(s.drop_last().take(k) =~= s.take(k));
    }
}

/// Reads the run of digits that stands in `s` from `from` up to `to`.
///
/// Gives `None` where the characters are no such run, or spell more than `max`.
pub fn parse_digits(s: &Vec<char>, from: usize, to: usize, max: u64) -> (r: Option<u64>)
    requires
        from <= to <= s.len(),
    ensures
        match r {
            Some(v) => at_most(digits_value(s@.subrange(from as int, to as int)), max as nat)
                == Some(v as nat),
            None => at_most(digits_value(s@.subrange(from as int, to as int)), max as nat)
                is None,
        },
{
    let ghost digits = s@.subrange(from as int, to as int);
    if from == to {
        return None;
    }
    let mut acc: u64 = 0;
    let mut i: usize = from;
    assert(digits.take(0) =~= Seq::<char>::empty());
    while i < to
        invariant
            from <= i <= to <= s.len(),
            digits == s@.subrange(from as int, to as int),
            all_digits(digits.take(i - from)),
            acc == decimal_value(digits.take(i - from)),
            acc <= max,
        decreases to - i,
    {
        let c: char = s[i];
        let ghost k = i - from;
        assert(digits[k] == c);
        if !('0' <= c && c <= '9') {
            return None;
        }
        let d: u64 = (c as u64) - ('0' as u64);
        proof {
            assert(digits.take(k + 1).drop_last() =~= digits.take(k));
            assert(digits.take(k + 1).last() == c);
            assert(decimal_value(digits.take(k + 1)) == acc * 10 + d);
            lemma_decimal_prefix(digits, k + 1);
        }
        if max < d || acc > (max - d) / 10 {
            return None;
        }
        acc = acc * 10 + d;
        i += 1;
    }
    assert(digits.take(i - from) =~= digits);
    Some(acc)
}

/// Reads the unsigned integer literal that stands in `s` from `from` up to `to`.
///
/// Gives `None` where the characters are no such literal, or spell more than `max`.
pub fn parse_unsigned(s: &Vec<char>, from: usize, to: usize, max: u64) -> (r: Option<u64>)
    requires
        from <= to <= s.len(),
    ensures
        match r {
            Some(v) => at_most(unsigned_value(s@.subrange(from as int, to as int)), max as nat)
                == Some(v as nat),
            None => at_most(unsigned_value(s@.subrange(from as int, to as int)), max as nat)
                is None,
        },
{
    let ghost text = s@.subrange(from as int, to as int);
    if from < to && s[from] == '+' {
        assert(text.skip(1) =~= s@.subrange(from + 1, to as int));
        parse_digits(s, from + 1, to, max)
    } else {
        parse_digits(s, from, to, max)
    }
}

/// Appends the shortest base-ten spelling of `n` to `out`.
pub fn push_decimal(out: &mut String, n: u64)
    ensures
        final(out)@ == old(out)@ + decimal_text(n as nat),
    decreases n,
{
    if n >= 10 {
        push_decimal(out, n / 10);
    }
    let d: u8 = (n % 10) as u8;
    let c: char = (('0' as u8) + d) as char;
    assert(c == digit_char((n % 10) as nat));
    out.push(c);
    assert(final(out)@ =~= old(out)@ + decimal_text(n as nat));
}

/// Appends the base-ten spelling of `n` to `out`.
pub fn push_integer(out: &mut String, n: i64)
    ensures
        final(out)@ == old(out)@ + integer_text(n as int),
{
    if n < 0 {
        out.push('-');
        let magnitude: u64 = (-(n as i128)) as u64;
        push_decimal(out, magnitude);
        assert(final(out)@ =~= old(out)@ + integer_text(n as int));
    } else {
        push_decimal(out, n as u64);
    }
}

/// Appends the last `width` digits of `n` to `out`, with zeros in front where `n` has fewer.
pub fn push_padded_decimal(out: &mut String, n: u64, width: u8)
    ensures
        final(out)@ == old(out)@ + padded_decimal(n as nat, width as nat),
    decreases width,
{
    if width > 0 {
        push_padded_decimal(out, n / 10, width - 1);
        let d: u8 = (n % 10) as u8;
        let c: char = (('0' as u8) + d) as char;
        assert(c == digit_char((n % 10) as nat));
        out.push(c);
    }
    assert(final(out)@ =~= old(out)@ + padded_decimal(n as nat, width as nat));
}

} // verus!
