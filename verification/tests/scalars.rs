use exetel_api::customer::date::{
    parse_date, parse_short_date, unparse_date, unparse_short_date, Date, DateFormat,
};
use exetel_api::customer::{Percentage, Price};
use exetel_api::ApiError;

fn date(year: u16, month: u8, day: u8) -> Date {
    Date::from_ymd(year, month, day).expect("a day of the calendar")
}

#[test]
fn price_parses_dollars_and_cents() {
    assert_eq!(Price::parse("$12.34"), Ok(Price(1234)));
    assert_eq!(Price::parse("$12.34").unwrap().cents(), 1234);
}

#[test]
fn price_without_fraction_is_whole_dollars() {
    assert_eq!(Price::parse("12"), Ok(Price(1200)));
    assert_eq!(Price::parse("$7"), Ok(Price(700)));
}

#[test]
fn price_rejects_what_is_no_number() {
    assert_eq!(Price::parse("abc"), Err(ApiError::Format));
    assert_eq!(Price::parse(""), Err(ApiError::Format));
    assert_eq!(Price::parse("$"), Err(ApiError::Format));
    assert_eq!(Price::parse("$$1"), Err(ApiError::Format));
    assert_eq!(Price::parse("-1"), Err(ApiError::Format));
    assert_eq!(Price::parse("1,00"), Err(ApiError::Format));
    assert_eq!(Price::parse("12.x"), Err(ApiError::Format));
    assert_eq!(Price::parse(" 12"), Err(ApiError::Format));
}

#[test]
fn price_rejects_an_empty_group() {
    assert_eq!(Price::parse(".5"), Err(ApiError::Format));
    assert_eq!(Price::parse("5."), Err(ApiError::Format));
    assert_eq!(Price::parse("$."), Err(ApiError::Format));
}

#[test]
fn price_reads_the_second_group_as_a_number_of_cents() {
    assert_eq!(Price::parse("12.5"), Ok(Price(1205)));
    assert_eq!(Price::parse("12.345"), Ok(Price(1545)));
    assert_eq!(Price::parse("0.07"), Ok(Price(7)));
}

#[test]
fn price_does_not_read_behind_a_second_point() {
    assert_eq!(Price::parse("1.2.3"), Ok(Price(102)));
    assert_eq!(Price::parse("1.2.abc"), Ok(Price(102)));
    assert_eq!(Price::parse("$3.50."), Ok(Price(350)));
}

#[test]
fn price_accepts_a_plus_before_a_group() {
    assert_eq!(Price::parse("+5"), Ok(Price(500)));
    assert_eq!(Price::parse("$+5.+05"), Ok(Price(505)));
    assert_eq!(Price::parse("+"), Err(ApiError::Format));
}

#[test]
fn price_reads_a_dollar_sign_of_any_width_of_text_behind_it() {
    assert_eq!(Price::parse("€5"), Err(ApiError::Format));
    assert_eq!(Price::parse("$007.01"), Ok(Price(701)));
}

#[test]
fn price_fails_where_the_cents_do_not_fit() {
    assert_eq!(Price::parse("42949672.95"), Ok(Price(u32::MAX)));
    assert_eq!(Price::parse("42949672.96"), Err(ApiError::Format));
    assert_eq!(Price::parse("4294967296"), Err(ApiError::Format));
    assert_eq!(Price::parse("0.4294967295"), Ok(Price(u32::MAX)));
    assert_eq!(Price::parse("0.4294967296"), Err(ApiError::Format));
    assert_eq!(Price::parse("99999999999999999999999"), Err(ApiError::Format));
}

#[test]
fn price_is_written_with_two_digits_of_cents() {
    assert_eq!(Price(1234).to_display_string(), "$12.34");
    assert_eq!(Price(1200).to_display_string(), "$12.00");
    assert_eq!(Price(5).to_display_string(), "$0.05");
    assert_eq!(Price(0).to_display_string(), "$0.00");
    assert_eq!(Price(u32::MAX).to_display_string(), "$42949672.95");
}

#[test]
fn price_round_trips_through_its_text() {
    for cents in [0u32, 1, 9, 10, 99, 100, 101, 1234, 99_999, 1_000_000, u32::MAX - 1, u32::MAX] {
        let text = Price(cents).to_display_string();
        assert_eq!(Price::parse(&text), Ok(Price(cents)), "{}", text);
    }
}

#[test]
fn price_parses_through_the_std_traits() {
    assert_eq!("$12.34".parse::<Price>(), Ok(Price(1234)));
    assert_eq!("nothing".parse::<Price>(), Err(ApiError::Format));
    assert_eq!(Price::try_from(String::from("$1.01")), Ok(Price(101)));
    assert_eq!(Price::try_from(String::from("1.0x")), Err(ApiError::Format));
}

#[test]
fn percentage_round_trips_through_the_wire_integer() {
    for n in [0i64, 1, 42, 100, 101, -1, -42, i64::MAX, i64::MIN] {
        let percentage = Percentage::from(n);
        assert_eq!(percentage, Percentage(n));
        assert_eq!(i64::from(percentage), n);
        let back: i64 = percentage.into();
        assert_eq!(back, n);
    }
    assert_eq!(Percentage::from(42u32), Percentage(42));
    assert_eq!(Percentage::from(u32::MAX), Percentage(4_294_967_295));
}

#[test]
fn percentage_is_displayed_with_a_percent_sign() {
    assert_eq!(Percentage(42).to_display_string(), "42%");
    assert_eq!(Percentage(0).to_display_string(), "0%");
    assert_eq!(Percentage(150).to_display_string(), "150%");
    assert_eq!(Percentage(-5).to_display_string(), "-5%");
    assert_eq!(Percentage(i64::MAX).to_display_string(), "9223372036854775807%");
    assert_eq!(Percentage(i64::MIN).to_display_string(), "-9223372036854775808%");
}

#[test]
fn long_date_is_written_without_padding() {
    assert_eq!(unparse_date(&date(2024, 1, 5)), "5 Jan 2024");
    assert_eq!(date(2024, 1, 5).format(DateFormat::Long), "5 Jan 2024");
    assert_eq!(unparse_date(&date(1999, 12, 31)), "31 Dec 1999");
    assert_eq!(unparse_date(&date(987, 6, 10)), "10 Jun 0987");
    assert_eq!(unparse_date(&date(0, 2, 29)), "29 Feb 0000");
    assert_eq!(unparse_date(&date(9999, 12, 31)), "31 Dec 9999");
}

#[test]
fn short_date_is_written_with_two_digits_of_the_year() {
    assert_eq!(unparse_short_date(&date(2024, 1, 5)), "5 Jan 24");
    assert_eq!(date(2024, 1, 5).format(DateFormat::Short), "5 Jan 24");
    assert_eq!(unparse_short_date(&date(2000, 3, 1)), "1 Mar 00");
    assert_eq!(unparse_short_date(&date(1970, 10, 20)), "20 Oct 70");
    assert_eq!(unparse_short_date(&date(2107, 7, 4)), "4 Jul 07");
}

#[test]
fn long_date_is_read() {
    assert_eq!(parse_date("5 Jan 2024"), Ok(date(2024, 1, 5)));
    assert_eq!(parse_date("05 Jan 2024"), Ok(date(2024, 1, 5)));
    assert_eq!(parse_date("31 Dec 1999"), Ok(date(1999, 12, 31)));
    assert_eq!(parse_date("29 Feb 2024"), Ok(date(2024, 2, 29)));
    assert_eq!(parse_date("29 Feb 2000"), Ok(date(2000, 2, 29)));
    assert_eq!(parse_date("1 Jan 0000"), Ok(date(0, 1, 1)));
    let read = parse_date("17 Aug 2031").unwrap();
    assert_eq!((read.year(), read.month(), read.day()), (2031, 8, 17));
}

#[test]
fn short_date_is_read_into_the_century_of_2000() {
    let read = parse_short_date("5 Jan 24").unwrap();
    assert_eq!(read.year(), 2024);
    assert_eq!(read, date(2024, 1, 5));
}

#[test]
fn short_date_turns_the_century_between_69_and_70() {
    assert_eq!(parse_short_date("1 Jan 00"), Ok(date(2000, 1, 1)));
    assert_eq!(parse_short_date("31 Dec 69"), Ok(date(2069, 12, 31)));
    assert_eq!(parse_short_date("1 Jan 70"), Ok(date(1970, 1, 1)));
    assert_eq!(parse_short_date("31 Dec 99"), Ok(date(1999, 12, 31)));
    assert_eq!(parse_short_date("29 Feb 00"), Ok(date(2000, 2, 29)));
    assert_eq!(parse_short_date("29 Feb 72"), Ok(date(1972, 2, 29)));
}

#[test]
fn date_that_the_calendar_lacks_is_refused() {
    assert_eq!(parse_date("31 Feb 2024"), Err(ApiError::Format));
    assert_eq!(parse_date("29 Feb 2023"), Err(ApiError::Format));
    assert_eq!(parse_date("29 Feb 1900"), Err(ApiError::Format));
    assert_eq!(parse_date("31 Apr 2023"), Err(ApiError::Format));
    assert_eq!(parse_date("0 Jan 2024"), Err(ApiError::Format));
    assert_eq!(parse_date("00 Jan 2024"), Err(ApiError::Format));
    assert_eq!(parse_date("32 Jan 2024"), Err(ApiError::Format));
    assert_eq!(parse_short_date("29 Feb 70"), Err(ApiError::Format));
    assert_eq!(Date::from_ymd(2023, 2, 29), None);
    assert_eq!(Date::from_ymd(2023, 13, 1), None);
    assert_eq!(Date::from_ymd(2023, 0, 1), None);
    assert_eq!(Date::from_ymd(10_000, 1, 1), None);
    assert_eq!(Date::from_ymd(1900, 2, 29), None);
}

#[test]
fn date_that_is_not_written_exactly_is_refused() {
    for text in [
        "",
        "5 Jan",
        " 5 Jan 2024",
        "5 Jan 2024 ",
        "5  Jan 2024",
        "5 jan 2024",
        "5 JAN 2024",
        "5 January 2024",
        "5 Jan 24",
        "5 Jan 02024",
        "5 Jan +024",
        "+5 Jan 2024",
        "5-Jan-2024",
        "5 Jan\t2024",
        "005 Jan 2024",
        "5 Jnn 2024",
        "x Jan 2024",
        "5 Jan 20x4",
        "٥ Jan 2024",
    ] {
        assert_eq!(parse_date(text), Err(ApiError::Format), "{:?}", text);
    }
    for text in ["5 Jan 2024", "5 Jan 4", " 5 Jan 24", "5 jan 24", "5 Jan 2x", "5 Jan +4", ""] {
        assert_eq!(parse_short_date(text), Err(ApiError::Format), "{:?}", text);
    }
}

#[test]
fn long_date_round_trips_through_its_text() {
    for (y, m, d) in [(2024, 1, 5), (2024, 2, 29), (1999, 12, 31), (0, 1, 1), (9999, 12, 31), (850, 11, 10)] {
        let written = unparse_date(&date(y, m, d));
        assert_eq!(parse_date(&written), Ok(date(y, m, d)), "{}", written);
    }
    for month in 1..=12u8 {
        let written = unparse_date(&date(2023, month, 28));
        assert_eq!(parse_date(&written), Ok(date(2023, month, 28)), "{}", written);
    }
}

#[test]
fn short_date_round_trips_between_1970_and_2069() {
    for (y, m, d) in [(1970, 1, 1), (1999, 12, 31), (2000, 1, 1), (2024, 1, 5), (2069, 12, 31)] {
        let written = unparse_short_date(&date(y, m, d));
        assert_eq!(parse_short_date(&written), Ok(date(y, m, d)), "{}", written);
    }
    assert_eq!(parse_short_date(&unparse_short_date(&date(1969, 7, 20))), Ok(date(2069, 7, 20)));
    assert_eq!(parse_short_date(&unparse_short_date(&date(2070, 1, 1))), Ok(date(1970, 1, 1)));
}

#[test]
fn dates_are_written_as_chrono_writes_them_without_padding() {
    for (y, m, d) in [(2024, 1, 5), (1999, 12, 31), (2000, 2, 29), (987, 6, 10), (1970, 10, 20)] {
        let naive = chrono::NaiveDate::from_ymd_opt(y as i32, m as u32, d as u32).unwrap();
        assert_eq!(unparse_date(&date(y, m, d)), naive.format("%-d %b %Y").to_string());
        assert_eq!(unparse_short_date(&date(y, m, d)), naive.format("%-d %b %y").to_string());
    }
}

#[test]
fn dates_are_read_as_chrono_reads_them() {
    for text in ["5 Jan 2024", "31 Dec 1999", "29 Feb 2000", "10 Jun 0987", "30 Feb 2024", "29 Feb 2023"] {
        let ours = parse_date(text).ok().map(|d| (d.year() as i32, d.month() as u32, d.day() as u32));
        let theirs = chrono::NaiveDate::parse_from_str(text, "%e %b %Y").ok().map(|d| {
            (chrono::Datelike::year(&d), chrono::Datelike::month(&d), chrono::Datelike::day(&d))
        });
        assert_eq!(ours, theirs, "{}", text);
    }
    for text in ["5 Jan 24", "1 Jan 00", "31 Dec 68", "31 Dec 69", "1 Jan 70", "31 Dec 99", "29 Feb 70"] {
        let ours = parse_short_date(text).ok().map(|d| (d.year() as i32, d.month() as u32, d.day() as u32));
        let theirs = chrono::NaiveDate::parse_from_str(text, "%e %b %y").ok().map(|d| {
            (chrono::Datelike::year(&d), chrono::Datelike::month(&d), chrono::Datelike::day(&d))
        });
        assert_eq!(ours, theirs, "{}", text);
    }
}

#[test]
fn every_day_of_a_leap_and_a_common_year_round_trips() {
    for year in [2023u16, 2024] {
        for month in 1..=12u8 {
            for day in 1..=31u8 {
                let naive = chrono::NaiveDate::from_ymd_opt(year as i32, month as u32, day as u32);
                let ours = Date::from_ymd(year, month, day);
                assert_eq!(ours.is_some(), naive.is_some(), "{}-{}-{}", year, month, day);
                if let Some(d) = ours {
                    assert_eq!(parse_date(&unparse_date(&d)), Ok(d));
                    assert_eq!(parse_short_date(&unparse_short_date(&d)), Ok(d));
                }
            }
        }
    }
}

fn days_in_month(year: u16, month: u8) -> u8 {
    let leap = year % 4 == 0 && (year % 100 != 0 || year % 400 == 0);
    match month {
        2 => {
            if leap {
                29
            } else {
                28
            }
        }
        4 | 6 | 9 | 11 => 30,
        _ => 31,
    }
}

#[test]
fn the_calendar_has_the_days_of_the_gregorian_rule_in_every_year() {
    for year in 0..=9999u16 {
        for month in 1..=12u8 {
            let last = days_in_month(year, month);
            for day in [0u8, 1, 28, 29, 30, 31, 32] {
                let on_calendar = 1 <= day && day <= last;
                assert_eq!(Date::from_ymd(year, month, day).is_some(), on_calendar, "{}-{}-{}", year, month, day);
            }
        }
        assert_eq!(Date::from_ymd(year, 0, 1), None);
        assert_eq!(Date::from_ymd(year, 13, 1), None);
    }
    assert_eq!(Date::from_ymd(10_000, 1, 1), None);
    assert_eq!(Date::from_ymd(u16::MAX, 12, 31), None);
    assert_eq!(Date::from_ymd(2024, u8::MAX, 1), None);
    assert_eq!(Date::from_ymd(2024, 1, u8::MAX), None);
}
