//! Conversion of the broker's London wall-clock times to UTC.
use vstd::prelude::*;
use chrono::{Datelike, TimeZone, Timelike};
use std::str::FromStr;

verus! {

/// Hour, minute and second of a time of day as chrono parses it.
pub uninterp spec fn time_of_day_of(s: Seq<char>) -> Option<(u32, u32, u32)>;

/// The UTC instant, in seconds since the epoch, of a London wall-clock time on
/// a date; none when the time does not exist or is ambiguous on that date.
pub uninterp spec fn london_to_utc_of(year: i32, month: u32, day: u32, hour: u32, minute: u32, second: u32) -> Option<i64>;

/// Relies on chrono's `NaiveTime::from_str` (`H:M` with optional `:S`): the
/// result depends on the text alone, and hour, minute and second lie in their
/// documented ranges.
#[verifier::external_body]
fn parse_time_of_day(s: &str) -> (r: Option<(u32, u32, u32)>)
    ensures
        r == time_of_day_of(s@),
        r matches Some((h, m, sec)) ==> h < 24 && m < 60 && sec < 60,
{
    match chrono::NaiveTime::from_str(s) {
        Ok(t) => Some((t.hour(), t.minute(), t.second())),
        Err(_) => None,
    }
}

/// Relies on chrono's `Utc::now` viewed in chrono-tz's `Europe::London`:
/// today's London date as year, month and day.
#[verifier::external_body]
fn london_today() -> (r: (i32, u32, u32)) {
    let d = chrono::Utc::now().with_timezone(&chrono_tz::Europe::London).date_naive();
    (d.year(), d.month(), d.day())
}

/// Relies on chrono's `TimeZone::with_ymd_and_hms` for chrono-tz's
/// `Europe::London`, taking the single local result.
#[verifier::external_body]
fn london_to_utc(year: i32, month: u32, day: u32, hour: u32, minute: u32, second: u32) -> (r: Option<i64>)
    ensures
        r == london_to_utc_of(year, month, day, hour, minute, second),
{
    match chrono_tz::Europe::London.with_ymd_and_hms(year, month, day, hour, minute, second).single() {
        Some(t) => Some(t.timestamp()),
        None => None,
    }
}

/// The UTC instant of a London time of day on today's London date; none when
/// the text is no time of day or the time does not exist today.
pub fn get_utc_time_for_update(update_time: &str) -> (r: Option<i64>)
    ensures
        time_of_day_of(update_time@) is None ==> r is None,
        time_of_day_of(update_time@) matches Some((h, m, s)) ==> exists|year: i32, month: u32, day: u32|
            r == london_to_utc_of(year, month, day, h, m, s),
{
    match parse_time_of_day(update_time) {
        Some((h, m, s)) => {
            let (year, month, day) = london_today();
            london_to_utc(year, month, day, h, m, s)
        },
        None => None,
    }
}

} // verus!
