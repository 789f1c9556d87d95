use vstd::prelude::*;

use chrono::{Datelike, Offset, TimeZone, Timelike};

verus! {

/// A calendar date.
#[derive(Debug, Clone, Copy, PartialEq, Eq, Structural)]
pub struct LocalDate {
    pub year: i32,
    pub month: u32,
    pub day: u32,
}

/// Whether a name is in the IANA zone table.
pub uninterp spec fn is_zone_name(name: Seq<char>) -> bool;

/// The UTC milliseconds of a local wall-clock time in a zone, where that
/// time exists exactly once there.
pub uninterp spec fn zone_local_instant(
    zone: Seq<char>,
    year: int,
    month: int,
    day: int,
    hour: int,
    minute: int,
    second: int,
) -> Option<i64>;

/// The local calendar date, as (year, month, day), of a UTC instant in a
/// zone.
pub uninterp spec fn zone_local_date(zone: Seq<char>, utc_ms: int) -> Option<(i32, u32, u32)>;

/// Relies on `chrono_tz::Tz::from_str`: whether the zone table holds a name.
#[verifier::external_body]
pub(crate) fn zone_known(name: &str) -> (r: bool)
    ensures
        r == is_zone_name(name@),
{
    name.parse::<chrono_tz::Tz>().is_ok()
}

/// Relies on `chrono::TimeZone::with_ymd_and_hms` for a `chrono_tz::Tz`,
/// then `single` and `timestamp_millis`: the instant of a local time when it
/// exists exactly once; `None` for an unknown zone, an invalid date or time,
/// a skipped or a repeated local time.
#[verifier::external_body]
pub(crate) fn local_instant(
    zone: &str,
    year: i32,
    month: u32,
    day: u32,
    hour: u32,
    minute: u32,
    second: u32,
) -> (r: Option<i64>)
    ensures
        r == zone_local_instant(
            zone@,
            year as int,
            month as int,
            day as int,
            hour as int,
            minute as int,
            second as int,
        ),
        !(1 <= month <= 12) ==> r is None,
{
    let tz: chrono_tz::Tz = zone.parse().ok()?;
    tz.with_ymd_and_hms(year, month, day, hour, minute, second).single().map(|t| t.timestamp_millis())
}

/// Relies on `chrono::DateTime::from_timestamp_millis`, the zone's
/// `offset_from_utc_datetime` and `NaiveDateTime::checked_add_offset`: the
/// local date of an instant; `None` for an unknown zone, or when the
/// instant or its local time is out of chrono's range.
#[verifier::external_body]
pub(crate) fn local_date(zone: &str, utc_ms: i64) -> (r: Option<LocalDate>)
    ensures
        r == match zone_local_date(zone@, utc_ms as int) {
            Some((y, m, d)) => Some(LocalDate { year: y, month: m, day: d }),
            None => None,
        },
{
    let tz: chrono_tz::Tz = zone.parse().ok()?;
    let utc = chrono::DateTime::from_timestamp_millis(utc_ms)?.naive_utc();
    let d = utc.checked_add_offset(tz.offset_from_utc_datetime(&utc).fix())?.date();
    Some(LocalDate { year: d.year(), month: d.month(), day: d.day() })
}

/// The fields (year, month, day, hour, minute, second) that
/// `NaiveDateTime::parse_from_str` reads from a text with a format.
pub uninterp spec fn naive_fields(s: Seq<char>, fmt: Seq<char>) -> Option<(i32, u32, u32, u32, u32, u32)>;

/// Relies on `chrono::NaiveDateTime::parse_from_str`: the date and time a
/// text holds in a format, split into its fields.
#[verifier::external_body]
pub(crate) fn parse_naive(s: &str, fmt: &str) -> (r: Option<(i32, u32, u32, u32, u32, u32)>)
    ensures
        r == naive_fields(s@, fmt@),
{
    let t = chrono::NaiveDateTime::parse_from_str(s, fmt).ok()?;
    Some((t.year(), t.month(), t.day(), t.hour(), t.minute(), t.second()))
}

/// The fields (year, month, day) that `NaiveDate::parse_from_str` reads
/// from a text with a format.
pub uninterp spec fn date_fields(s: Seq<char>, fmt: Seq<char>) -> Option<(i32, u32, u32)>;

/// Relies on `chrono::NaiveDate::parse_from_str`: the date a text holds in
/// a format, split into its fields.
#[verifier::external_body]
pub(crate) fn parse_date(s: &str, fmt: &str) -> (r: Option<(i32, u32, u32)>)
    ensures
        r == date_fields(s@, fmt@),
{
    let d = chrono::NaiveDate::parse_from_str(s, fmt).ok()?;
    Some((d.year(), d.month(), d.day()))
}

/// The UTC milliseconds that `DateTime::parse_from_rfc3339` reads from a
/// text with an explicit offset.
pub uninterp spec fn rfc3339_millis(s: Seq<char>) -> Option<i64>;

/// Relies on `chrono::DateTime::parse_from_rfc3339` and `timestamp_millis`.
#[verifier::external_body]
pub(crate) fn parse_rfc3339(s: &str) -> (r: Option<i64>)
    ensures
        r == rfc3339_millis(s@),
{
    chrono::DateTime::parse_from_rfc3339(s).ok().map(|t| t.timestamp_millis())
}

pub open spec fn is_leap_year(y: int) -> bool {
    (y % 4 == 0 && y % 100 != 0) || y % 400 == 0
}

/// Days in a month of the proleptic Gregorian calendar.
pub open spec fn days_in_month(y: int, m: int) -> int {
    if m == 2 {
        if is_leap_year(y) {
            29
        } else {
            28
        }
    } else if m == 4 || m == 6 || m == 9 || m == 11 {
        30
    } else {
        31
    }
}

/// The calendar day after (y, m, d).
pub open spec fn next_day(y: int, m: int, d: int) -> (int, int, int) {
    if d < days_in_month(y, m) {
        (y, m, d + 1)
    } else if m < 12 {
        (y, m + 1, 1)
    } else {
        (y + 1, 1, 1)
    }
}

/// The instant of local midnight starting a date, where the date's fields
/// fit chrono's argument types and that midnight exists exactly once.
pub open spec fn local_midnight(zone: Seq<char>, y: int, m: int, d: int) -> Option<i64> {
    if i32::MIN <= y <= i32::MAX && 0 <= m <= u32::MAX && 0 <= d <= u32::MAX {
        zone_local_instant(zone, y, m, d, 0, 0, 0)
    } else {
        None
    }
}

fn month_days(y: i32, m: u32) -> (r: u32)
    ensures
        r as int == days_in_month(y as int, m as int),
{
    if m == 2 {
        // Shift by a multiple of 400 years so that the remainders are taken
        // of a non-negative number.
        let shifted: i64 = y as i64 + 2_400_000_000;
        let leap = (shifted % 4 == 0 && shifted % 100 != 0) || shifted % 400 == 0;
        proof {
            let yi = y as int;
            vstd::arithmetic::div_mod::lemma_mod_multiples_vanish(600_000_000, yi, 4);
            vstd::arithmetic::div_mod::lemma_mod_multiples_vanish(24_000_000, yi, 100);
            vstd::arithmetic::div_mod::lemma_mod_multiples_vanish(6_000_000, yi, 400);
            assert(shifted as int == 4 * 600_000_000 + yi);
            assert(shifted as int == 100 * 24_000_000 + yi);
            assert(shifted as int == 400 * 6_000_000 + yi);
        }
        if leap {
            29
        } else {
            28
        }
    } else if m == 4 || m == 6 || m == 9 || m == 11 {
        30
    } else {
        31
    }
}

/// Local midnight at the start of (y, m, d) in a zone.
pub(crate) fn midnight(zone: &str, y: i32, m: u32, d: u32) -> (r: Option<i64>)
    ensures
        r == local_midnight(zone@, y as int, m as int, d as int),
{
    local_instant(zone, y, m, d, 0, 0, 0)
}

/// Local midnight at the start of the day after (y, m, d).
pub(crate) fn midnight_after(zone: &str, y: i32, m: u32, d: u32) -> (r: Option<i64>)
    ensures
        ({
            let (ny, nm, nd) = next_day(y as int, m as int, d as int);
            r == local_midnight(zone@, ny, nm, nd)
        }),
{
    let dim = month_days(y, m);
    if d < dim {
        midnight(zone, y, m, d + 1)
    } else if m < 12 {
        midnight(zone, y, m + 1, 1)
    } else if y < i32::MAX {
        midnight(zone, y + 1, 1, 1)
    } else {
        None
    }
}

} // verus!
