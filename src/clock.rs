//! Calendar and clock services, provided by chrono.
//!
//! Dates and times of day are held as plain numbers; instants are Unix times
//! in whole seconds. Parsing depends on the text alone, so its results are
//! named; the time zone conversion and the clock depend on the machine and the
//! moment, so nothing is promised of their values.

use vstd::prelude::*;
use chrono::{Datelike, TimeZone, Timelike};

verus! {

/// A calendar date in the proleptic Gregorian calendar.
#[derive(Clone, Copy, PartialEq, Eq, Structural, Debug)]
pub struct CivilDate {
    pub year: i32,
    pub month: u32,
    pub day: u32,
}

/// A wall-clock time of day, to the minute.
#[derive(Clone, Copy, PartialEq, Eq, Structural, Debug)]
pub struct ClockTime {
    pub hour: u32,
    pub minute: u32,
}

/// The date that chrono reads from `s` under the format `fmt`.
pub uninterp spec fn date_from_text(s: Seq<char>, fmt: Seq<char>) -> Option<CivilDate>;

/// The time of day that chrono reads from `s` under the format `fmt`.
pub uninterp spec fn time_from_text(s: Seq<char>, fmt: Seq<char>) -> Option<ClockTime>;

/// Relies on `chrono::NaiveDate::parse_from_str`: its result depends on the
/// text and the format alone, and a parsed date has its month in 1..=12 and
/// its day in 1..=31, as `Datelike::month` and `Datelike::day` document.
#[verifier::external_body]
pub(crate) fn parse_date(s: &str, fmt: &str) -> (r: Option<CivilDate>)
    ensures
        r == date_from_text(s@, fmt@),
        r matches Some(d) ==> 1 <= d.month <= 12 && 1 <= d.day <= 31,
{
    match chrono::NaiveDate::parse_from_str(s, fmt) {
        Ok(d) => Some(CivilDate { year: d.year(), month: d.month(), day: d.day() }),
        Err(_) => None,
    }
}

/// Relies on `chrono::NaiveTime::parse_from_str`: its result depends on the
/// text and the format alone, and a parsed time has its hour in 0..=23 and its
/// minute in 0..=59, as `Timelike::hour` and `Timelike::minute` document.
#[verifier::external_body]
pub(crate) fn parse_time(s: &str, fmt: &str) -> (r: Option<ClockTime>)
    ensures
        r == time_from_text(s@, fmt@),
        r matches Some(t) ==> t.hour <= 23 && t.minute <= 59,
{
    match chrono::NaiveTime::parse_from_str(s, fmt) {
        Ok(t) => Some(ClockTime { hour: t.hour(), minute: t.minute() }),
        Err(_) => None,
    }
}

/// Relies on `chrono::Local`'s `TimeZone::from_local_datetime`: the Unix time
/// of a wall-clock reading in the machine's time zone. `None` where the
/// reading is no valid date and time, or falls in a gap or a fold of that time
/// zone (`MappedLocalTime::single`).
#[verifier::external_body]
pub(crate) fn local_timestamp(d: CivilDate, t: ClockTime) -> (r: Option<i64>) {
    let date = chrono::NaiveDate::from_ymd_opt(d.year, d.month, d.day)?;
    let naive = date.and_hms_opt(t.hour, t.minute, 0)?;
    chrono::Local.from_local_datetime(&naive).single().map(|dt| dt.timestamp())
}

/// Relies on `chrono::Local::now` and `DateTime::date_naive`: today's date in
/// the machine's time zone, with month and day in the ranges that
/// `Datelike::month` and `Datelike::day` document.
#[verifier::external_body]
pub(crate) fn local_today() -> (r: CivilDate)
    ensures
        1 <= r.month <= 12,
        1 <= r.day <= 31,
{
    let d = chrono::Local::now().date_naive();
    CivilDate { year: d.year(), month: d.month(), day: d.day() }
}

/// Relies on `chrono::Utc::now` and `DateTime::timestamp`: the current Unix
/// time in seconds.
#[verifier::external_body]
pub(crate) fn now_timestamp() -> (r: i64) {
    chrono::Utc::now().timestamp()
}

} // verus!
