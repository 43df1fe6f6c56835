//! Local date and time, and strftime-style formatting through chrono.
use vstd::prelude::*;
use crate::text::{is_ascii_digit_spec};
use chrono::{Datelike, Timelike};
use std::fmt::Write;

verus! {

/// A local calendar date and wall-clock time.
#[derive(Debug, Clone, Copy)]
pub struct LocalDateTime {
    pub year: i32,
    pub month: u32,
    pub day: u32,
    pub hour: u32,
    pub minute: u32,
    pub second: u32,
}

/// A Gregorian leap year.
pub open spec fn is_leap_year(y: int) -> bool {
    (y % 4 == 0 && y % 100 != 0) || y % 400 == 0
}

/// The number of days of month `m` in year `y`.
pub open spec fn days_in_month(y: int, m: int) -> int {
    if m == 2 {
        if is_leap_year(y) {
            29
        } else {
            28
        }
    } else if m == 4 || m == 6 || m == 9 || m == 11 {
        30
    } else {
        31
    }
}

/// An existing calendar date and time of day within chrono's year range
/// (years -262143 to 262142).
pub open spec fn valid_date_time(t: LocalDateTime) -> bool {
    &&& -262143 <= t.year <= 262142
    &&& 1 <= t.month <= 12
    &&& 1 <= t.day <= days_in_month(t.year as int, t.month as int)
    &&& t.hour < 24
    &&& t.minute < 60
    &&& t.second < 60
}

/// The current local date and time (chrono `Local::now`).
#[verifier::external_body]
pub(crate) fn local_now() -> (r: LocalDateTime)
    ensures
        valid_date_time(r),
{
    let now = chrono::Local::now();
    LocalDateTime {
        year: now.year(),
        month: now.month(),
        day: now.day(),
        hour: now.hour(),
        minute: now.minute(),
        second: now.second(),
    }
}

/// What chrono's `format(fmt)` gives for the date and time `t`, or `None`
/// where chrono rejects the date or the format.
pub uninterp spec fn chrono_formatted(t: LocalDateTime, fmt: Seq<char>) -> Option<Seq<char>>;

/// `s` has the shape `HH:MM` of two-digit hour and minute.
pub open spec fn is_hh_mm(s: Seq<char>) -> bool {
    &&& s.len() == 5
    &&& is_ascii_digit_spec(s[0])
    &&& is_ascii_digit_spec(s[1])
    &&& s[2] == ':'
    &&& is_ascii_digit_spec(s[3])
    &&& is_ascii_digit_spec(s[4])
}

/// The characters of an optional string.
pub open spec fn opt_view(r: Option<String>) -> Option<Seq<char>> {
    match r {
        Some(s) => Some(s@),
        None => None,
    }
}

/// A present result of the shape `HH:MM`.
pub open spec fn hh_mm_result(r: Option<String>) -> bool {
    match r {
        Some(s) => is_hh_mm(s@),
        None => false,
    }
}

/// The decimal digit of `d` (0 to 9).
pub open spec fn digit_char(d: int) -> char {
    (48 + d) as char
}

/// `n` (0 to 99) as two digits, zero-padded.
pub open spec fn two_digits(n: int) -> Seq<char> {
    seq![digit_char(n / 10), digit_char(n % 10)]
}

/// `y` (0 to 9999) as four digits, zero-padded.
pub open spec fn four_digits(y: int) -> Seq<char> {
    seq![digit_char(y / 1000), digit_char((y / 100) % 10), digit_char((y / 10) % 10), digit_char(y % 10)]
}

/// The date of `t` as `YYYY-MM-DD`.
pub open spec fn ymd_text(t: LocalDateTime) -> Seq<char> {
    four_digits(t.year as int) + "-"@ + two_digits(t.month as int) + "-"@ + two_digits(t.day as int)
}

/// The time of day of `t` as `HH:MM`.
pub open spec fn hm_text(t: LocalDateTime) -> Seq<char> {
    two_digits(t.hour as int) + ":"@ + two_digits(t.minute as int)
}

/// A date and time whose year chrono writes with four digits.
pub open spec fn four_digit_year(t: LocalDateTime) -> bool {
    valid_date_time(t) && 0 <= t.year <= 9999
}

/// `t` formatted by chrono with the strftime-style format `fmt`
/// (`NaiveDate::from_ymd_opt`, `and_hms_opt`, then `format`); `None` where
/// chrono rejects the date or time or reports a formatting error. For a
/// valid date and time and the format `%H:%M`, chrono builds the value and
/// writes the zero-padded two-digit hour and minute; for `%Y-%m-%d` and
/// `%Y-%m-%d %H:%M` it writes the year zero-padded to four digits (for
/// years 0 to 9999), the month and day zero-padded to two, and the time as
/// for `%H:%M`.
#[verifier::external_body]
pub(crate) fn format_date_time(t: &LocalDateTime, fmt: &str) -> (r: Option<String>)
    ensures
        opt_view(r) == chrono_formatted(*t, fmt@),
        valid_date_time(*t) && fmt@ == "%H:%M"@ ==> hh_mm_result(r) && opt_view(r) == Some(hm_text(*t)),
        four_digit_year(*t) && fmt@ == "%Y-%m-%d"@ ==> opt_view(r) == Some(ymd_text(*t)),
        four_digit_year(*t) && fmt@ == "%Y-%m-%d %H:%M"@ ==> opt_view(r) == Some(
            ymd_text(*t) + " "@ + hm_text(*t),
        ),
        valid_date_time(*t) && (fmt@ == "%Y-%m-%d"@ || fmt@ == "%Y-%m-%d %H:%M"@) ==> r is Some,
{
    let dt = chrono::NaiveDate::from_ymd_opt(t.year, t.month, t.day)?.and_hms_opt(
        t.hour,
        t.minute,
        t.second,
    )?;
    let mut out = String::new();
    write!(out, "{}", dt.format(fmt)).ok()?;
    Some(out)
}

/// The current date as chrono writes `%Y-%m-%d`: `YYYY-MM-DD` for the
/// years 0 to 9999.
pub fn today_ymd() -> (r: String)
    ensures
        exists|t: LocalDateTime|
            valid_date_time(t) && chrono_formatted(t, "%Y-%m-%d"@) == Some(r@) && (four_digit_year(t) ==> r@
                == ymd_text(t)),
{
    let now = local_now();
    match format_date_time(&now, "%Y-%m-%d") {
        Some(s) => s,
        None => {
            proof {
                assert(false);
            }
            String::new()
        },
    }
}

/// The stamp of a sync commit: the current date and time as chrono writes
/// `%Y-%m-%d %H:%M`, `YYYY-MM-DD HH:MM` for the years 0 to 9999.
pub fn sync_timestamp() -> (r: String)
    ensures
        exists|t: LocalDateTime|
            valid_date_time(t) && chrono_formatted(t, "%Y-%m-%d %H:%M"@) == Some(r@) && (four_digit_year(t)
                ==> r@ == ymd_text(t) + " "@ + hm_text(t)),
{
    let now = local_now();
    match format_date_time(&now, "%Y-%m-%d %H:%M") {
        Some(s) => s,
        None => {
            proof {
                assert(false);
            }
            String::new()
        },
    }
}

} // verus!
