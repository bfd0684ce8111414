//! Calendar dates, written on the wire as `D Mon YYYY` or as `D Mon YY`.

use vstd::prelude::*;
use crate::error::ApiError;
use crate::text::{
    all_digits, chars_of, decimal_text, decimal_value, digits_value, is_digit,
    lemma_decimal_bound, lemma_decimal_text, lemma_decimal_text_len, lemma_padded_decimal,
    padded_decimal, parse_digits, pow10, push_decimal, push_padded_decimal,
};

verus! {

/// chrono's date without a time zone.
#[verifier::external_type_specification]
#[verifier::external_body]
pub struct ExNaiveDate(chrono::NaiveDate);

/// Whether `year` has a 29th of February in the proleptic Gregorian calendar.
pub open spec fn is_leap_year(year: int) -> bool {
    year % 4 == 0 && (year % 100 != 0 || year % 400 == 0)
}

/// The number of days of `month` in `year`.
pub open spec fn days_in_month(year: int, month: int) -> int {
    if month == 2 {
        if is_leap_year(year) {
            29
        } else {
            28
        }
    } else if month == 4 || month == 6 || month == 9 || month == 11 {
        30
    } else {
        31
    }
}

/// A year, a month and a day of the month, as numbers.
pub struct Ymd {
    pub year: int,
    pub month: int,
    pub day: int,
}

impl Ymd {
    /// Whether the calendar has this day, in a year that four digits can spell.
    pub open spec fn on_calendar(self) -> bool {
        &&& 0 <= self.year <= 9999
        &&& 1 <= self.month <= 12
        &&& 1 <= self.day <= days_in_month(self.year, self.month)
    }
}

/// The two ways in which the wire spells a date.
#[derive(Clone, Copy, Debug, PartialEq, Eq, Structural)]
pub enum DateFormat {
    /// Day, abbreviated month and a year of four digits: `5 Jan 2024`.
    Long,
    /// Day, abbreviated month and the last two digits of the year: `5 Jan 24`.
    Short,
}

/// The three letters that abbreviate `month`.
pub open spec fn month_abbreviation(month: int) -> Seq<char> {
    if month == 1 {
        seq!['J', 'a', 'n']
    } else if month == 2 {
        seq!['F', 'e', 'b']
    } else if month == 3 {
        seq!['M', 'a', 'r']
    } else if month == 4 {
        seq!['A', 'p', 'r']
    } else if month == 5 {
        seq!['M', 'a', 'y']
    } else if month == 6 {
        seq!['J', 'u', 'n']
    } else if month == 7 {
        seq!['J', 'u', 'l']
    } else if month == 8 {
        seq!['A', 'u', 'g']
    } else if month == 9 {
        seq!['S', 'e', 'p']
    } else if month == 10 {
        seq!['O', 'c', 't']
    } else if month == 11 {
        seq!['N', 'o', 'v']
    } else {
        seq!['D', 'e', 'c']
    }
}

/// The first month from `first` on that `name` abbreviates.
pub open spec fn month_from(name: Seq<char>, first: int) -> Option<int>
    decreases 13 - first,
{
    if first < 1 || first > 12 {
        None
    } else if month_abbreviation(first) == name {
        Some(first)
    } else {
        month_from(name, first + 1)
    }
}

/// The month that `name` abbreviates, letter for letter.
pub open spec fn month_number(name: Seq<char>) -> Option<int> {
    month_from(name, 1)
}

/// The year that the two digits `yy` stand for: below 70 in the century of 2000,
/// from 70 on in that of 1900.
pub open spec fn expand_year(yy: int) -> int {
    if yy < 70 {
        2000 + yy
    } else {
        1900 + yy
    }
}

impl DateFormat {
    /// The number of digits that spell the year.
    pub open spec fn year_width(self) -> nat {
        match self {
            DateFormat::Long => 4,
            DateFormat::Short => 2,
        }
    }

    /// The digits that spell `year`.
    pub open spec fn year_text(self, year: int) -> Seq<char> {
        match self {
            DateFormat::Long => padded_decimal(year as nat, 4),
            DateFormat::Short => padded_decimal((year % 100) as nat, 2),
        }
    }

    /// The year that digits stand for which spell `written`.
    pub open spec fn year_value(self, written: int) -> int {
        match self {
            DateFormat::Long => written,
            DateFormat::Short => expand_year(written),
        }
    }
}

/// How `date` is written: the day without a leading zero, a space, the month's
/// abbreviation, a space, and the year.
pub open spec fn date_text(format: DateFormat, date: Ymd) -> Seq<char> {
    decimal_text(date.day as nat) + seq![' '] + month_abbreviation(date.month) + seq![' ']
        + format.year_text(date.year)
}

/// The date that `text` spells.
///
/// The text is one or two digits of the day, a space, three letters of the
/// month, a space and the digits of the year, with nothing before, between or
/// behind them, and the calendar has that day.
pub open spec fn date_value(format: DateFormat, text: Seq<char>) -> Option<Ymd> {
    let k = text.len() - format.year_width() - 5;
    if (k == 1 || k == 2) && text[k] == ' ' && text[k + 4] == ' ' {
        match (
            digits_value(text.take(k)),
            month_number(text.subrange(k + 1, k + 4)),
            digits_value(text.skip(k + 5)),
        ) {
            (Some(day), Some(month), Some(written)) => {
                let date = Ymd { year: format.year_value(written as int), month, day: day as int };
                if date.on_calendar() {
                    Some(date)
                } else {
                    None
                }
            },
            _ => None,
        }
    } else {
        None
    }
}

/// No two months share an abbreviation.
pub proof fn lemma_month_abbreviations_differ(a: int, b: int)
    requires
        1 <= a < b <= 12,
    ensures
        month_abbreviation(a) != month_abbreviation(b),
{
    let x = month_abbreviation(a);
    let y = month_abbreviation(b);
    assert(x[0] != y[0] || x[1] != y[1] || x[2] != y[2]);
}

/// The abbreviation of a month names that month.
pub proof fn lemma_month_number(month: int)
    requires
        1 <= month <= 12,
    ensures
        month_number(month_abbreviation(month)) == Some(month),
{
    let name = month_abbreviation(month);
    assert forall|first: int| 1 <= first <= month implies #[trigger] month_from(name, first)
        == Some(month) by {
        lemma_month_from(name, first, month);
    }
}

proof fn lemma_month_from(name: Seq<char>, first: int, month: int)
    requires
        1 <= first <= month <= 12,
        name == month_abbreviation(month),
    ensures
        month_from(name, first) == Some(month),
    decreases month - first,
{
    if first < month {
        lemma_month_abbreviations_differ(first, month);
        lemma_month_from(name, first + 1, month);
    }
}

/// Reading a date that was written in the long format gives the date back.
pub proof fn long_date_round_trip(date: Ymd)
    requires
        date.on_calendar(),
    ensures
        date_value(DateFormat::Long, date_text(DateFormat::Long, date)) == Some(date),
{
    assert(pow10(4) == 10000) by {
        reveal_with_fuel(pow10, 5);
    }
    lemma_padded_decimal(date.year as nat, 4);
    lemma_date_round_trip(DateFormat::Long, date, date.year);
}

/// Reading a date that was written in the short format gives the date back,
/// for the years that two digits tell apart: 1970 to 2069.
pub proof fn short_date_round_trip(date: Ymd)
    requires
        date.on_calendar(),
        1970 <= date.year <= 2069,
    ensures
        date_value(DateFormat::Short, date_text(DateFormat::Short, date)) == Some(date),
{
    assert(pow10(2) == 100) by {
        reveal_with_fuel(pow10, 3);
    }
    lemma_padded_decimal((date.year % 100) as nat, 2);
    lemma_date_round_trip(DateFormat::Short, date, date.year % 100);
}

proof fn lemma_date_round_trip(format: DateFormat, date: Ymd, written: int)
    requires
        date.on_calendar(),
        format.year_text(date.year).len() == format.year_width(),
        digits_value(format.year_text(date.year)) == Some(written as nat),
        written >= 0,
        format.year_value(written) == date.year,
    ensures
        date_value(format, date_text(format, date)) == Some(date),
{
    let day = decimal_text(date.day as nat);
    let month = month_abbreviation(date.month);
    let year = format.year_text(date.year);
    let text = date_text(format, date);
    let k = day.len() as int;
    lemma_decimal_text(date.day as nat);
    lemma_decimal_text_len(date.day as nat);
    lemma_month_number(date.month);
    assert(text.len() == k + 5 + format.year_width());
    assert(text.take(k) =~= day);
    assert(text.subrange(k + 1, k + 4) =~= month);
    assert(text.skip(k + 5) =~= year);
    assert(text[k] == ' ');
    assert(text[k + 4] == ' ');
}

/// A day of the calendar in the years 0 to 9999.
#[derive(Clone, Copy, Debug, PartialEq, Eq)]
pub struct Date {
    year: u16,
    month: u8,
    day: u8,
}

impl View for Date {
    type V = Ymd;

    closed spec fn view(&self) -> Ymd {
        Ymd { year: self.year as int, month: self.month as int, day: self.day as int }
    }
}

/// `chrono::NaiveDate::from_ymd_opt`, for the years 0 to 9999: it gives a date
/// where `month` is a month of the year and `day` a day of that month in the
/// proleptic Gregorian calendar, and `None` otherwise.
#[verifier::external_body]
fn naive_date(year: i32, month: u32, day: u32) -> (r: Option<chrono::NaiveDate>)
    requires
        0 <= year <= 9999,
    ensures
        r.is_some() == (1 <= month <= 12 && 1 <= day <= days_in_month(year as int, month as int)),
{
    chrono::NaiveDate::from_ymd_opt(year, month, day)
}

/// The abbreviation of `month` as a string.
fn month_name(month: u8) -> (name: &'static str)
    requires
        1 <= month <= 12,
    ensures
        name@ == month_abbreviation(month as int),
{
    proof {
        reveal_strlit("Jan");
        reveal_strlit("Feb");
        reveal_strlit("Mar");
        reveal_strlit("Apr");
        reveal_strlit("May");
        reveal_strlit("Jun");
        reveal_strlit("Jul");
        reveal_strlit("Aug");
        reveal_strlit("Sep");
        reveal_strlit("Oct");
        reveal_strlit("Nov");
        reveal_strlit("Dec");
    }
    let name = match month {
        1 => "Jan",
        2 => "Feb",
        3 => "Mar",
        4 => "Apr",
        5 => "May",
        6 => "Jun",
        7 => "Jul",
        8 => "Aug",
        9 => "Sep",
        10 => "Oct",
        11 => "Nov",
        _ => "Dec",
    };
    assert(name@ =~= month_abbreviation(month as int));
    name
}

/// The month whose abbreviation stands in `s` at `at`.
fn month_at(s: &Vec<char>, at: usize) -> (r: Option<u8>)
    requires
        at + 3 <= s.len(),
    ensures
        match r {
            Some(m) => month_number(s@.subrange(at as int, at + 3)) == Some(m as int),
            None => month_number(s@.subrange(at as int, at + 3)) is None,
        },
{
    let ghost name = s@.subrange(at as int, at + 3);
    let mut month: u8 = 1;
    while month <= 12
        invariant
            1 <= month <= 13,
            at + 3 <= s.len(),
            name == s@.subrange(at as int, at + 3),
            month_number(name) == month_from(name, month as int),
        decreases 13 - month,
    {
        let letters = chars_of(month_name(month));
        if s[at] == letters[0] && s[at + 1] == letters[1] && s[at + 2] == letters[2] {
            assert(name =~= letters@);
            return Some(month);
        }
        assert(name != letters@) by {
            if name == letters@ {
                assert(name[0] == letters@[0]);
                assert(name[1] == letters@[1]);
                assert(name[2] == letters@[2]);
            }
        }
        month += 1;
    }
    None
}

impl Date {
    #[verifier::type_invariant]
    spec fn on_calendar(self) -> bool {
        self@.on_calendar()
    }

    /// The date of that year, month and day of the month, where the calendar has it.
    pub fn from_ymd(year: u16, month: u8, day: u8) -> (r: Option<Date>)
        ensures
            match r {
                Some(date) => date@ == (Ymd {
                    year: year as int,
                    month: month as int,
                    day: day as int,
                }) && date@.on_calendar(),
                None => !(Ymd { year: year as int, month: month as int, day: day as int })
                    .on_calendar(),
            },
    {
        if year > 9999 {
            return None;
        }
        match naive_date(year as i32, month as u32, day as u32) {
            Some(_) => Some(Date { year, month, day }),
            None => None,
        }
    }

    /// The year, from 0 to 9999.
    pub fn year(&self) -> (year: u16)
        ensures
            year == self@.year,
            self@.on_calendar(),
    {
        proof {
            use_type_invariant(self);
        }
        self.year
    }

    /// The month, from 1 to 12.
    pub fn month(&self) -> (month: u8)
        ensures
            month == self@.month,
            self@.on_calendar(),
    {
        proof {
            use_type_invariant(self);
        }
        self.month
    }

    /// The day of the month, from 1.
    pub fn day(&self) -> (day: u8)
        ensures
            day == self@.day,
            self@.on_calendar(),
    {
        proof {
            use_type_invariant(self);
        }
        self.day
    }

    /// Reads a date that is written in `format`.
    pub fn parse(format: DateFormat, text: &str) -> (r: Result<Date, ApiError>)
        ensures
            match r {
                Ok(date) => date_value(format, text@) == Some(date@),
                Err(e) => e == ApiError::Format && date_value(format, text@) is None,
            },
    {
        let s = chars_of(text);
        let n = s.len();
        let width: usize = match format {
            DateFormat::Long => 4,
            DateFormat::Short => 2,
        };
        if n != width + 6 && n != width + 7 {
            return Err(ApiError::Format);
        }
        let k: usize = n - width - 5;
        if s[k] != ' ' || s[k + 4] != ' ' {
            return Err(ApiError::Format);
        }
        assert(s@.take(k as int) =~= s@.subrange(0, k as int));
        assert(s@.skip(k + 5) =~= s@.subrange(k + 5, n as int));
        let ghost day_text = s@.take(k as int);
        let ghost year_text = s@.skip(k + 5);
        proof {
            assert(pow10(2) == 100 && pow10(4) == 10000) by {
                reveal_with_fuel(pow10, 5);
            }
            if all_digits(day_text) {
                lemma_decimal_bound(day_text);
            }
            if all_digits(year_text) {
                lemma_decimal_bound(year_text);
            }
        }
        let day = match parse_digits(&s, 0, k, 99) {
            Some(day) => day,
            None => { return Err(ApiError::Format); },
        };
        let month = match month_at(&s, k + 1) {
            Some(month) => month,
            None => { return Err(ApiError::Format); },
        };
        let written = match parse_digits(&s, k + 5, n, 9999) {
            Some(written) => written,
            None => { return Err(ApiError::Format); },
        };
        let year: u64 = match format {
            DateFormat::Long => written,
            DateFormat::Short => if written < 70 {
                2000 + written
            } else {
                1900 + written
            },
        };
        match Date::from_ymd(year as u16, month, day as u8) {
            Some(date) => Ok(date),
            None => Err(ApiError::Format),
        }
    }

    /// Writes the date in `format`.
    pub fn format(&self, format: DateFormat) -> (out: String)
        ensures
            out@ == date_text(format, self@),
            self@.on_calendar(),
    {
        proof {
            use_type_invariant(self);
        }
        let mut out = String::new();
        push_decimal(&mut out, self.day as u64);
        out.push(' ');
        out.append(month_name(self.month));
        out.push(' ');
        match format {
            DateFormat::Long => push_padded_decimal(&mut out, self.year as u64, 4),
            DateFormat::Short => push_padded_decimal(&mut out, (self.year % 100) as u64, 2),
        }
        assert(out@ =~= date_text(format, self@));
        out
    }
}

/// Reads a date of the long format, such as `5 Jan 2024`.
pub fn parse_date(text: &str) -> (r: Result<Date, ApiError>)
    ensures
        match r {
            Ok(date) => date_value(DateFormat::Long, text@) == Some(date@),
            Err(e) => e == ApiError::Format && date_value(DateFormat::Long, text@) is None,
        },
{
    Date::parse(DateFormat::Long, text)
}

/// Reads a date of the short format, such as `5 Jan 24`.
pub fn parse_short_date(text: &str) -> (r: Result<Date, ApiError>)
    ensures
        match r {
            Ok(date) => date_value(DateFormat::Short, text@) == Some(date@),
            Err(e) => e == ApiError::Format && date_value(DateFormat::Short, text@) is None,
        },
{
    Date::parse(DateFormat::Short, text)
}

/// Writes a date in the long format.
pub fn unparse_date(date: &Date) -> (out: String)
    ensures
        out@ == date_text(DateFormat::Long, date@),
{
    date.format(DateFormat::Long)
}

/// Writes a date in the short format.
pub fn unparse_short_date(date: &Date) -> (out: String)
    ensures
        out@ == date_text(DateFormat::Short, date@),
{
    date.format(DateFormat::Short)
}

} // verus!
