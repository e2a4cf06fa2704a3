//! Wall-clock and calendar arithmetic for the lesson normalizer.
//!
//! The `HH:MM:SS` strings of the wire format are parsed by verified code
//! against an exact specification. What only a calendar library can
//! answer — which date an ISO week day falls on, and what UTC instant a
//! Stockholm wall-clock reading denotes across DST — is asked of
//! `chrono` and `chrono-tz` behind two trusted wrappers.

use chrono::Datelike;
use chrono::TimeZone;
use vstd::prelude::*;

verus! {

/// Whether a character is a decimal digit.
pub open spec fn is_digit(c: char) -> bool {
    '0' as int <= c as int <= '9' as int
}

/// The value of a decimal digit character.
pub open spec fn digit_of(c: char) -> int {
    c as int - '0' as int
}

/// What a wall-clock string of the wire format denotes: exactly two
/// digits each of hour, minute and second, separated by colons, within
/// the ranges of a time of day.
pub open spec fn spec_parse_hms(s: Seq<char>) -> Option<(int, int, int)> {
    if s.len() == 8 && is_digit(s[0]) && is_digit(s[1]) && s[2] == ':' && is_digit(s[3])
        && is_digit(s[4]) && s[5] == ':' && is_digit(s[6]) && is_digit(s[7]) {
        let h = 10 * digit_of(s[0]) + digit_of(s[1]);
        let m = 10 * digit_of(s[3]) + digit_of(s[4]);
        let sec = 10 * digit_of(s[6]) + digit_of(s[7]);
        if h < 24 && m < 60 && sec < 60 {
            Some((h, m, sec))
        } else {
            None
        }
    } else {
        None
    }
}

/// Reads one digit character.
fn digit_val(c: char) -> (r: Option<u32>)
    ensures
        match r {
            Some(d) => is_digit(c) && d == digit_of(c),
            None => !is_digit(c),
        },
{
    let code = c as u32;
    if 48 <= code && code <= 57 {
        Some(code - 48)
    } else {
        None
    }
}

/// Parses a wall-clock `HH:MM:SS` string; `None` on anything else.
pub fn parse_hms(s: &str) -> (r: Option<(u32, u32, u32)>)
    ensures
        match r {
            Some(t) => spec_parse_hms(s@) == Some((t.0 as int, t.1 as int, t.2 as int)) && t.0
                < 24 && t.1 < 60 && t.2 < 60,
            None => spec_parse_hms(s@) is None,
        },
{
    if s.unicode_len() != 8 {
        return None;
    }
    let d0 = match digit_val(s.get_char(0)) {
        Some(d) => d,
        None => {
            return None;
        },
    };
    let d1 = match digit_val(s.get_char(1)) {
        Some(d) => d,
        None => {
            return None;
        },
    };
    if s.get_char(2) != ':' {
        return None;
    }
    let d3 = match digit_val(s.get_char(3)) {
        Some(d) => d,
        None => {
            return None;
        },
    };
    let d4 = match digit_val(s.get_char(4)) {
        Some(d) => d,
        None => {
            return None;
        },
    };
    if s.get_char(5) != ':' {
        return None;
    }
    let d6 = match digit_val(s.get_char(6)) {
        Some(d) => d,
        None => {
            return None;
        },
    };
    let d7 = match digit_val(s.get_char(7)) {
        Some(d) => d,
        None => {
            return None;
        },
    };
    let h = 10 * d0 + d1;
    let m = 10 * d3 + d4;
    let sec = 10 * d6 + d7;
    if h < 24 && m < 60 && sec < 60 {
        Some((h, m, sec))
    } else {
        None
    }
}

/// The calendar date (year, month, day) of the given weekday (1 Monday
/// through 7 Sunday) of the given ISO week, as `chrono` computes it;
/// `None` for a week number the year does not have or a year out of
/// range. A function of the arguments alone.
pub uninterp spec fn iso_week_date(year: int, week: int, weekday: int) -> Option<(int, int, int)>;

/// Relies on chrono's `NaiveDate::from_isoywd_opt` (with
/// `Weekday::try_from`): the calendar date of a weekday of an ISO week.
/// chrono documents the month as 1–12 and the day as 1–31.
#[verifier::external_body]
pub(crate) fn iso_week_to_date(year: i32, week: u32, weekday: u8) -> (r: Option<(i32, u32, u32)>)
    requires
        1 <= weekday <= 7,
    ensures
        r matches Some(d) ==> iso_week_date(year as int, week as int, weekday as int) == Some(
            (d.0 as int, d.1 as int, d.2 as int),
        ) && 1 <= d.1 <= 12 && 1 <= d.2 <= 31,
        r is None ==> iso_week_date(year as int, week as int, weekday as int) is None,
{
    let wd = chrono::Weekday::try_from(weekday - 1).ok()?;
    let date = chrono::NaiveDate::from_isoywd_opt(year, week, wd)?;
    Some((date.year(), date.month(), date.day()))
}

/// The UTC timestamp (seconds) of the given wall-clock date-time read in
/// the Europe/Stockholm civil timezone, as `chrono-tz` computes it with
/// its compiled-in timezone data; `None` for an invalid date or time of
/// day, and for wall-clock readings that a DST transition makes
/// ambiguous or nonexistent. A function of the arguments alone.
pub uninterp spec fn stockholm_utc(y: int, mo: int, d: int, h: int, mi: int, s: int) -> Option<
    int,
>;

/// Relies on chrono-tz's `Europe::Stockholm` with chrono's
/// `TimeZone::from_local_datetime`, `MappedLocalTime::single` and
/// `DateTime::timestamp`: the UTC instant of a Stockholm wall-clock
/// reading, unique readings only.
#[verifier::external_body]
pub(crate) fn stockholm_to_utc(y: i32, mo: u32, d: u32, h: u32, mi: u32, s: u32) -> (r: Option<
    i64,
>)
    ensures
        r matches Some(t) ==> stockholm_utc(
            y as int,
            mo as int,
            d as int,
            h as int,
            mi as int,
            s as int,
        ) == Some(t as int),
        r is None ==> stockholm_utc(
            y as int,
            mo as int,
            d as int,
            h as int,
            mi as int,
            s as int,
        ) is None,
{
    let date = chrono::NaiveDate::from_ymd_opt(y, mo, d)?;
    let time = chrono::NaiveTime::from_hms_opt(h, mi, s)?;
    let local = chrono_tz::Europe::Stockholm.from_local_datetime(&date.and_time(time)).single()?;
    Some(local.timestamp())
}

} // verus!
