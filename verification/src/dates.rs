//! Calendar dates: the facts a parsed date always satisfies, and the call
//! into `time` that parses one.
use vstd::prelude::*;
use time::format_description::well_known::Iso8601;

verus! {

/// A Gregorian leap year.
pub open spec fn is_leap_year(y: int) -> bool {
    y % 4 == 0 && (y % 100 != 0 || y % 400 == 0)
}

/// The number of days in month `m` (1 to 12) of year `y`.
pub open spec fn days_in_month(y: int, m: int) -> int {
    if m == 2 {
        if is_leap_year(y) {
            29
        } else {
            28
        }
    } else if m == 4 || m == 6 || m == 9 || m == 11 {
        30
    } else {
        31
    }
}

/// A year, month and day that name a day of the Gregorian calendar.
pub open spec fn valid_calendar_date(y: int, m: int, d: int) -> bool {
    1 <= m <= 12 && 1 <= d <= days_in_month(y, m)
}

/// An ASCII decimal digit.
pub open spec fn is_ascii_digit(c: char) -> bool {
    '0' <= c && c <= '9'
}

/// The value of an ASCII decimal digit.
pub open spec fn digit_value(c: char) -> int {
    c as int - 48
}

/// The date written by `s` in the plain `YYYY-MM-DD` form, when `s` has that
/// form and names a day of the calendar; `None` otherwise.
pub open spec fn calendar_text_date(s: Seq<char>) -> Option<(i32, u8, u8)> {
    if s.len() == 10 && s[4] == '-' && s[7] == '-' && is_ascii_digit(s[0]) && is_ascii_digit(s[1])
        && is_ascii_digit(s[2]) && is_ascii_digit(s[3]) && is_ascii_digit(s[5]) && is_ascii_digit(
        s[6],
    ) && is_ascii_digit(s[8]) && is_ascii_digit(s[9]) {
        let y = digit_value(s[0]) * 1000 + digit_value(s[1]) * 100 + digit_value(s[2]) * 10
            + digit_value(s[3]);
        let m = digit_value(s[5]) * 10 + digit_value(s[6]);
        let d = digit_value(s[8]) * 10 + digit_value(s[9]);
        if valid_calendar_date(y, m, d) {
            Some((y as i32, m as u8, d as u8))
        } else {
            None
        }
    } else {
        None
    }
}

/// The calendar date, as (year, month, day), that `time::Date::parse` reads
/// from `s` with the ISO 8601 date format, if it reads one.
pub uninterp spec fn iso8601_date(s: Seq<char>) -> Option<(i32, u8, u8)>;

/// Calls `time::Date::parse` with `Iso8601::DATE` and reads the year,
/// month number and day of the result. Trusted to return the named result
/// `iso8601_date`, which, as every `time::Date`, is a valid calendar date;
/// a `YYYY-MM-DD` text of a calendar day gives that day (four-digit year,
/// `-`, the month's two digits, `-`, the day's two digits, and nothing
/// after), and the empty string gives nothing. Which other strings parse
/// (ordinal and week forms, basic form, signed years) is left to the name.
#[verifier::external_body]
pub fn parse_iso8601_date(s: &str) -> (r: Option<(i32, u8, u8)>)
    ensures
        r == iso8601_date(s@),
        r matches Some(d) ==> valid_calendar_date(d.0 as int, d.1 as int, d.2 as int),
        calendar_text_date(s@) is Some ==> r == calendar_text_date(s@),
        s@.len() == 0 ==> r is None,
{
    match time::Date::parse(s, &Iso8601::DATE) {
        Ok(date) => Some((date.year(), u8::from(date.month()), date.day())),
        Err(_) => None,
    }
}

} // verus!
