//! Calendar timestamps on the proleptic Gregorian calendar, with date and
//! time arithmetic done by chrono.

use vstd::prelude::*;
use chrono::{Datelike, Timelike};

verus! {

/// The earliest year that chrono's `NaiveDate` represents.
pub const MIN_YEAR: i32 = -262143;

/// The latest year that chrono's `NaiveDate` represents.
pub const MAX_YEAR: i32 = 262142;

pub const NANOS_PER_MILLI: i64 = 1_000_000;

pub open spec fn is_leap_year(y: int) -> bool {
    (y % 4 == 0 && y % 100 != 0) || y % 400 == 0
}

pub open spec fn days_in_month_spec(y: int, m: int) -> int {
    if m == 2 {
        if is_leap_year(y) { 29 } else { 28 }
    } else if m == 4 || m == 6 || m == 9 || m == 11 {
        30
    } else {
        31
    }
}

/// The number of days from 1970-01-01 to the given date.
pub open spec fn days_from_civil(y: int, m: int, d: int) -> int {
    let y2 = if m <= 2 { y - 1 } else { y };
    let era = y2 / 400;
    let yoe = y2 - era * 400;
    let mp = if m > 2 { m - 3 } else { m + 9 };
    let doy = (153 * mp + 2) / 5 + d - 1;
    let doe = yoe * 365 + yoe / 4 - yoe / 100 + doy;
    era * 146097 + doe - 719468
}

/// A date and a time of day, to the nanosecond.
#[derive(Clone, Copy, PartialEq, Eq, Structural, Debug)]
pub struct ClockTime {
    pub year: i32,
    pub month: u32,
    pub day: u32,
    pub hour: u32,
    pub minute: u32,
    pub second: u32,
    pub nanosecond: u32,
}

impl ClockTime {
    pub open spec fn wf(&self) -> bool {
        &&& MIN_YEAR <= self.year <= MAX_YEAR
        &&& 1 <= self.month <= 12
        &&& 1 <= self.day <= days_in_month_spec(self.year as int, self.month as int)
        &&& self.hour < 24
        &&& self.minute < 60
        &&& self.second < 60
        &&& self.nanosecond < 1_000_000_000
    }

    /// Days since 1970-01-01.
    pub open spec fn day_number(&self) -> int {
        days_from_civil(self.year as int, self.month as int, self.day as int)
    }

    /// Nanoseconds since 1970-01-01 00:00:00.
    pub open spec fn instant(&self) -> int {
        ((self.day_number() * 24 + self.hour) * 60 + self.minute) * 60 * 1_000_000_000
            + self.second * 1_000_000_000 + self.nanosecond
    }
}

/// The number of days in month `m` of year `y`.
pub fn days_in_month(y: i32, m: u32) -> (r: u32)
    requires
        1 <= m <= 12,
    ensures
        r == days_in_month_spec(y as int, m as int),
{
    if m == 2 {
        if (y % 4 == 0 && y % 100 != 0) || y % 400 == 0 {
            29
        } else {
            28
        }
    } else if m == 4 || m == 6 || m == 9 || m == 11 {
        30
    } else {
        31
    }
}

impl ClockTime {
    /// The timestamp at the start of the given second, if it names a real
    /// date and time within the representable years.
    pub fn from_ymd_hms(year: i32, month: u32, day: u32, hour: u32, minute: u32, second: u32) -> (r: Option<ClockTime>)
        ensures
            r.is_some() == (MIN_YEAR <= year <= MAX_YEAR && 1 <= month <= 12
                && 1 <= day <= days_in_month_spec(year as int, month as int)
                && hour < 24 && minute < 60 && second < 60),
            r matches Some(t) ==> t.wf() && t == (ClockTime {
                year, month, day, hour, minute, second, nanosecond: 0,
            }),
    {
        if year < MIN_YEAR || year > MAX_YEAR || month < 1 || month > 12 {
            return None;
        }
        if day < 1 || day > days_in_month(year, month) || hour >= 24 || minute >= 60 || second >= 60 {
            return None;
        }
        Some(ClockTime { year, month, day, hour, minute, second, nanosecond: 0 })
    }
}

impl ClockTime {
    /// Whether this names a real date and time within the representable
    /// years.
    pub fn is_valid(&self) -> (r: bool)
        ensures
            r == self.wf(),
    {
        MIN_YEAR <= self.year && self.year <= MAX_YEAR && 1 <= self.month && self.month <= 12
            && 1 <= self.day && self.day <= days_in_month(self.year, self.month) && self.hour < 24
            && self.minute < 60 && self.second < 60 && self.nanosecond < 1_000_000_000
    }
}

/// The first nanosecond that chrono represents.
pub open spec fn min_instant() -> int {
    days_from_civil(MIN_YEAR as int, 1, 1) * 86_400_000_000_000
}

/// The last nanosecond that chrono represents.
pub open spec fn max_instant() -> int {
    (days_from_civil(MAX_YEAR as int, 12, 31) + 1) * 86_400_000_000_000 - 1
}

pub open spec fn in_calendar_range(x: int) -> bool {
    min_instant() <= x <= max_instant()
}

/// `u` is `t` moved by `offset` nanoseconds when that stays on the calendar,
/// and `t` unchanged otherwise.
pub open spec fn shifted(t: ClockTime, u: ClockTime, offset: int) -> bool {
    if in_calendar_range(t.instant() + offset) {
        u.wf() && u.instant() == t.instant() + offset
    } else {
        u == t
    }
}

/// Day numbers of representable dates stay well inside a hundred million.
proof fn lemma_day_number_bounds(y: int, m: int, d: int)
    requires
        MIN_YEAR <= y <= MAX_YEAR,
        1 <= m <= 12,
        1 <= d <= 31,
    ensures
        -100_000_000 <= days_from_civil(y, m, d) <= 100_000_000,
{
    let y2 = if m <= 2 { y - 1 } else { y };
    let era = y2 / 400;
    let yoe = y2 - era * 400;
    let mp = if m > 2 { m - 3 } else { m + 9 };
    assert(-657 <= era <= 656);
    assert(0 <= yoe < 400);
    assert(0 <= (153 * mp + 2) / 5 <= 400);
    assert(0 <= yoe / 4 <= 100);
    assert(0 <= yoe / 100 <= 4);
}

/// Every timestamp and every representable instant lies within 10^22
/// nanoseconds of 1970.
pub proof fn lemma_instant_bounds(t: ClockTime)
    requires
        t.wf(),
    ensures
        -10_000_000_000_000_000_000_000 < t.instant() < 10_000_000_000_000_000_000_000,
        -10_000_000_000_000_000_000_000 < min_instant(),
        max_instant() < 10_000_000_000_000_000_000_000,
{
    lemma_day_number_bounds(t.year as int, t.month as int, t.day as int);
    lemma_day_number_bounds(MIN_YEAR as int, 1, 1);
    lemma_day_number_bounds(MAX_YEAR as int, 12, 31);
    let dn = t.day_number();
    let (h, mi, s, n) = (t.hour as int, t.minute as int, t.second as int, t.nanosecond as int);
    assert(((dn * 24 + h) * 60 + mi) * 60 * 1_000_000_000 + s * 1_000_000_000 + n
        == dn * 86_400_000_000_000 + h * 3_600_000_000_000 + mi * 60_000_000_000
        + s * 1_000_000_000 + n) by (nonlinear_arith);
}

/// Relies on chrono's `NaiveDateTime::checked_add_signed` with a
/// `TimeDelta::milliseconds`: exact calendar arithmetic, and `None` exactly
/// when the result falls outside `NaiveDateTime::MIN ..= NaiveDateTime::MAX`.
#[verifier::external_body]
fn checked_add_millis(t: &ClockTime, millis: i64) -> (r: Option<ClockTime>)
    requires
        t.wf(),
        millis > i64::MIN,
    ensures
        r.is_some() == in_calendar_range(t.instant() + millis * NANOS_PER_MILLI),
        r matches Some(u) ==> u.wf() && u.instant() == t.instant() + millis * NANOS_PER_MILLI,
{
    let date = chrono::NaiveDate::from_ymd_opt(t.year, t.month, t.day)?;
    let start = date.and_hms_nano_opt(t.hour, t.minute, t.second, t.nanosecond)?;
    let u = start.checked_add_signed(chrono::TimeDelta::milliseconds(millis))?;
    Some(ClockTime {
        year: u.year(),
        month: u.month(),
        day: u.day(),
        hour: u.hour(),
        minute: u.minute(),
        second: u.second(),
        nanosecond: u.nanosecond(),
    })
}

/// `t` moved by `millis` milliseconds, or `t` itself when the result would
/// leave the representable calendar.
pub fn add_millis(t: ClockTime, millis: i128) -> (r: ClockTime)
    requires
        t.wf(),
    ensures
        r.wf(),
        shifted(t, r, millis * NANOS_PER_MILLI),
{
    if millis > i64::MAX as i128 || millis < -(i64::MAX as i128) {
        proof {
            lemma_instant_bounds(t);
        }
        t
    } else {
        match checked_add_millis(&t, millis as i64) {
            Some(u) => u,
            None => t,
        }
    }
}

} // verus!
