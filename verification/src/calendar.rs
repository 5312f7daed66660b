//! Calendar fields of a point in time.
//!
//! The watch takes dates and times as separate small numbers. A point in
//! time enters the library as seconds since 1970-01-01 00:00:00 UTC; the
//! calendar arithmetic is left to `chrono`.

use vstd::prelude::*;
use chrono::{Datelike, Timelike};

verus! {

/// The earliest point in time that has calendar fields:
/// -262143-01-01 00:00:00 UTC.
pub const MIN_UNIX_SECONDS: i64 = -8_334_601_228_800;

/// The latest point in time that has calendar fields:
/// 262142-12-31 23:59:59 UTC.
pub const MAX_UNIX_SECONDS: i64 = 8_210_266_876_799;

/// The calendar fields of a point in time, in UTC.
#[derive(Debug, Clone, Copy, PartialEq, Eq)]
pub struct CivilTime {
    pub year: i32,
    /// 1 to 12.
    pub month: u8,
    /// 1 to 31.
    pub day: u8,
    /// 0 to 23.
    pub hour: u8,
    /// 0 to 59.
    pub minute: u8,
    /// 0 to 59.
    pub second: u8,
    /// Days since Monday, 0 to 6.
    pub weekday: u8,
}

/// The year of the UTC date that `secs` seconds after the epoch falls on, as
/// `chrono` reckons it.
pub uninterp spec fn utc_year(secs: int) -> int;

/// The month of that date.
pub uninterp spec fn utc_month(secs: int) -> int;

/// The day of the month of that date.
pub uninterp spec fn utc_day(secs: int) -> int;

/// The days from Monday to the weekday of the date that `secs` seconds
/// after the epoch falls on: the epoch was a Thursday, three days after a
/// Monday.
pub open spec fn weekday_of(secs: int) -> int {
    (secs / 86_400 + 3) % 7
}

/// Whether a point in time has calendar fields.
pub open spec fn in_calendar(secs: int) -> bool {
    MIN_UNIX_SECONDS <= secs <= MAX_UNIX_SECONDS
}

/// The calendar fields of the point in time `secs`.
pub open spec fn civil_of(secs: int) -> CivilTime {
    CivilTime {
        year: utc_year(secs) as i32,
        month: utc_month(secs) as u8,
        day: utc_day(secs) as u8,
        hour: ((secs % 86_400) / 3_600) as u8,
        minute: (((secs % 86_400) / 60) % 60) as u8,
        second: (secs % 60) as u8,
        weekday: weekday_of(secs) as u8,
    }
}

/// Calendar fields in the ranges that the watch counts in.
pub open spec fn fields_in_range(t: CivilTime) -> bool {
    &&& 1 <= t.month <= 12
    &&& 1 <= t.day <= 31
    &&& t.hour <= 23
    &&& t.minute <= 59
    &&& t.second <= 59
    &&& t.weekday <= 6
}

/// Calls `chrono::DateTime::<Utc>::from_timestamp` with no nanoseconds and
/// reads the fields of the result through `Datelike` and `Timelike`.
///
/// Trusted: there is a result exactly for the seconds between the two
/// limits above; the date is the one that `chrono` gives for these seconds;
/// the weekday goes round every seven days from the Thursday of the epoch;
/// the time of day is the remainder of the seconds in the day; the fields
/// lie in their calendar ranges; no time from the epoch on falls in a year
/// before 1970.
#[verifier::external_body]
pub(crate) fn civil_from_unix(secs: i64) -> (civil: Option<CivilTime>)
    ensures
        civil is Some <==> MIN_UNIX_SECONDS <= secs <= MAX_UNIX_SECONDS,
        civil is Some ==> civil->0.year == utc_year(secs as int) && civil->0.month == utc_month(
            secs as int,
        ) && civil->0.day == utc_day(secs as int),
        civil is Some ==> civil->0.weekday == (secs / 86_400 + 3) % 7,
        civil is Some ==> civil->0.hour == (secs % 86_400) / 3_600 && civil->0.minute == ((secs
            % 86_400) / 60) % 60 && civil->0.second == secs % 60,
        civil is Some ==> 1 <= civil->0.month <= 12 && 1 <= civil->0.day <= 31 && civil->0.weekday
            <= 6,
        civil is Some && secs >= 0 ==> civil->0.year >= 1970,
{
    let t = chrono::DateTime::<chrono::Utc>::from_timestamp(secs, 0)?;
    Some(
        CivilTime {
            year: t.year(),
            month: t.month() as u8,
            day: t.day() as u8,
            hour: t.hour() as u8,
            minute: t.minute() as u8,
            second: t.second() as u8,
            weekday: t.weekday().num_days_from_monday() as u8,
        },
    )
}

/// `std::time::SystemTime`, a reading of the system clock.
#[verifier::external_type_specification]
#[verifier::external_body]
pub struct ExSystemTime(std::time::SystemTime);

/// `std::time::SystemTimeError`, what comes of asking how long one time
/// lies behind a later one.
#[verifier::external_type_specification]
#[verifier::external_body]
pub struct ExSystemTimeError(std::time::SystemTimeError);

/// Calls `std::time::SystemTime::now`. Nothing is promised of the reading:
/// it differs from call to call.
#[verifier::external_body]
fn system_time_now() -> (now: std::time::SystemTime) {
    std::time::SystemTime::now()
}

/// Calls `std::time::SystemTime::duration_since` with the epoch
/// `std::time::UNIX_EPOCH`. Nothing is promised of the result.
#[verifier::external_body]
fn since_epoch(time: &std::time::SystemTime) -> (span: Result<
    std::time::Duration,
    std::time::SystemTimeError,
>) {
    time.duration_since(std::time::UNIX_EPOCH)
}

/// Calls `std::time::Duration::as_secs`. Nothing is promised of the number.
#[verifier::external_body]
fn whole_seconds(span: &std::time::Duration) -> (secs: u64) {
    span.as_secs()
}

/// The whole seconds that the system clock stands behind 1970-01-01
/// 00:00:00 UTC; 0 for a clock that stands before then.
pub(crate) fn unix_seconds_now() -> (secs: u64) {
    let now = system_time_now();
    match since_epoch(&now) {
        Ok(span) => whole_seconds(&span),
        Err(_) => 0,
    }
}

/// The calendar fields of `secs`, where it has any.
pub fn civil_time(secs: i64) -> (civil: Option<CivilTime>)
    ensures
        civil == if in_calendar(secs as int) {
            Some(civil_of(secs as int))
        } else {
            None
        },
        civil is Some ==> fields_in_range(civil->0),
        civil is Some && secs >= 0 ==> civil->0.year >= 1970,
{
    civil_from_unix(secs)
}

/// The last two digits of a year of the common era.
pub open spec fn year_in_century(year: int) -> u8 {
    (year % 100) as u8
}

/// The last two digits of `year`.
pub fn two_digit_year(year: i32) -> (digits: u8)
    requires
        year >= 0,
    ensures
        digits == year_in_century(year as int),
        digits <= 99,
{
    (year % 100) as u8
}

/// Whether a year of the Gregorian calendar has a 29th of February.
pub open spec fn is_leap_year(year: int) -> bool {
    year % 4 == 0 && (year % 100 != 0 || year % 400 == 0)
}

/// The days of the common era that lie before the first day of `year`.
pub open spec fn days_before_year(year: int) -> int {
    let y = year - 1;
    365 * y + y / 4 - y / 100 + y / 400
}

/// The days of a year that lie before the first day of `month`; 0 for a
/// month that the calendar does not have.
pub open spec fn days_before_month(year: int, month: int) -> int {
    let leap: int = if is_leap_year(year) && month > 2 {
        1
    } else {
        0
    };
    if month == 1 {
        0
    } else if month == 2 {
        31
    } else if month == 3 {
        59 + leap
    } else if month == 4 {
        90 + leap
    } else if month == 5 {
        120 + leap
    } else if month == 6 {
        151 + leap
    } else if month == 7 {
        181 + leap
    } else if month == 8 {
        212 + leap
    } else if month == 9 {
        243 + leap
    } else if month == 10 {
        273 + leap
    } else if month == 11 {
        304 + leap
    } else if month == 12 {
        334 + leap
    } else {
        0
    }
}

/// The number of a day of the common era, where 1 is the first of January
/// of the year 1, a Monday.
pub open spec fn day_number(year: int, month: int, day: int) -> int {
    days_before_year(year) + days_before_month(year, month) + day
}

/// The days from Monday to the weekday of a date: 0 for Monday, 6 for
/// Sunday.
pub open spec fn weekday_from_monday(year: int, month: int, day: int) -> int {
    (day_number(year, month, day) - 1) % 7
}

/// The days from Monday to the weekday of the date `year`-`month`-`day`.
pub fn days_from_monday(year: u16, month: u8, day: u8) -> (weekday: u8)
    ensures
        weekday == weekday_from_monday(year as int, month as int, day as int),
        weekday <= 6,
{
    let leap_year = year % 4 == 0 && (year % 100 != 0 || year % 400 == 0);
    let leap: u64 = if leap_year && month > 2 { 1 } else { 0 };
    let before_month: u64 = if month == 1 {
        0
    } else if month == 2 {
        31
    } else if month == 3 {
        59 + leap
    } else if month == 4 {
        90 + leap
    } else if month == 5 {
        120 + leap
    } else if month == 6 {
        151 + leap
    } else if month == 7 {
        181 + leap
    } else if month == 8 {
        212 + leap
    } else if month == 9 {
        243 + leap
    } else if month == 10 {
        273 + leap
    } else if month == 11 {
        304 + leap
    } else if month == 12 {
        334 + leap
    } else {
        0
    };
    // Counted from a Monday 371 days, 53 weeks, before the common era, so
    // that the year 0 with its 366 days stays above zero.
    let before_year: u64 = if year == 0 {
        5
    } else {
        let y: u64 = (year - 1) as u64;
        365 * y + y / 4 - y / 100 + y / 400 + 371
    };
    let shifted: u64 = before_year + before_month + day as u64;
    assert(shifted == day_number(year as int, month as int, day as int) + 371);
    ((shifted - 1) % 7) as u8
}

/// The quarter hour of the day that `hour:minute` lies in.
pub open spec fn quarter_hour(hour: u8, minute: u8) -> int {
    hour * 4 + minute / 15
}

} // verus!
