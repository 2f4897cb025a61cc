//! Calendar dates and UTC timestamps as plain values.
//!
//! A date is held as year, month and day; arithmetic on dates goes through
//! the count of days since 1970-01-01. A timestamp is a count of seconds
//! since 1970-01-01T00:00:00 UTC.

use vstd::prelude::*;
use crate::text::{append_pad2, append_pad4, pad2_rep, pad4_rep};

verus! {

pub const SECONDS_PER_DAY: i64 = 86400;

pub const SECONDS_PER_WEEK: i64 = 604800;

/// A calendar date. Valid values are constrained by `valid()`.
#[derive(Clone, Copy, Debug, PartialEq, Eq, Structural, Hash)]
pub struct Date {
    pub year: i32,
    pub month: u8,
    pub day: u8,
}

/// A date that may be unknown.
#[derive(Clone, Copy, Debug, PartialEq, Eq, Structural, Hash)]
pub struct OptionalDate(pub Option<Date>);

/// A point in time, in whole seconds since 1970-01-01T00:00:00 UTC.
#[derive(Clone, Copy, Debug, PartialEq, Eq, Structural, Hash)]
pub struct Timestamp {
    pub secs: i64,
}

pub open spec fn is_leap_year(y: int) -> bool {
    y % 4 == 0 && (y % 100 != 0 || y % 400 == 0)
}

pub open spec fn spec_days_in_month(y: int, m: int) -> int {
    if m == 2 {
        if is_leap_year(y) {
            29
        } else {
            28
        }
    } else if m == 4 || m == 6 || m == 9 || m == 11 {
        30
    } else {
        31
    }
}

impl Date {
    /// Dates are kept within years 1 to 9999, the range the rendering and
    /// the day arithmetic cover.
    pub open spec fn valid(self) -> bool {
        &&& 1 <= self.year <= 9999
        &&& 1 <= self.month <= 12
        &&& 1 <= self.day <= spec_days_in_month(self.year as int, self.month as int)
    }

    /// The count of days from 1970-01-01 to this date (negative before it).
    pub open spec fn day_number(self) -> int {
        spec_day_number(self.year as int, self.month as int, self.day as int)
    }
}

/// Days from 1970-01-01 to the given civil date, by era/year-of-era
/// decomposition of the proleptic Gregorian calendar.
pub open spec fn spec_day_number(y: int, m: int, d: int) -> int {
    let yy = if m <= 2 {
        y - 1
    } else {
        y
    };
    let era = yy / 400;
    let yoe = yy - era * 400;
    let mp = if m > 2 {
        m - 3
    } else {
        m + 9
    };
    let doy = (153 * mp + 2) / 5 + d - 1;
    let doe = yoe * 365 + yoe / 4 - yoe / 100 + doy;
    era * 146097 + doe - 719468
}

/// Builds a date after checking the ranges; `None` when the triple does
/// not name a calendar day within years 1 to 9999.
pub fn date_from_ymd(year: i32, month: u8, day: u8) -> (r: Option<Date>)
    ensures
        match r {
            Some(d) => {
                &&& d.year == year
                &&& d.month == month
                &&& d.day == day
                &&& d.valid()
            },
            None => !(Date { year, month, day }).valid(),
        },
{
    if year < 1 || year > 9999 || month < 1 || month > 12 {
        return None;
    }
    if day < 1 || day > days_in_month(year, month) {
        return None;
    }
    Some(Date { year, month, day })
}

/// The number of days in the given month, February depending on leap years.
pub fn days_in_month(year: i32, month: u8) -> (r: u8)
    requires
        1 <= month <= 12,
    ensures
        r as int == spec_days_in_month(year as int, month as int),
{
    if month == 2 {
        if year % 4 == 0 && (year % 100 != 0 || year % 400 == 0) {
            29
        } else {
            28
        }
    } else if month == 4 || month == 6 || month == 9 || month == 11 {
        30
    } else {
        31
    }
}

impl Date {
    /// The count of days from 1970-01-01 to this date, executable form.
    pub fn to_day_number(self) -> (r: i64)
        requires
            self.valid(),
        ensures
            r as int == self.day_number(),
            -719468 <= r <= 2932896,
    {
        let y: i64 = self.year as i64;
        let m: i64 = self.month as i64;
        let d: i64 = self.day as i64;
        let yy: i64 = if m <= 2 {
            y - 1
        } else {
            y
        };
        let era: i64 = yy / 400;
        let yoe: i64 = yy - era * 400;
        let mp: i64 = if m > 2 {
            m - 3
        } else {
            m + 9
        };
        let doy: i64 = (153 * mp + 2) / 5 + d - 1;
        let doe: i64 = yoe * 365 + yoe / 4 - yoe / 100 + doy;
        era * 146097 + doe - 719468
    }

    /// The last second of this date: 23:59:59 UTC on it.
    pub fn end_of_day(self) -> (r: Timestamp)
        requires
            self.valid(),
        ensures
            r.secs as int == self.day_number() * (SECONDS_PER_DAY as int) + 86399,
    {
        let days = self.to_day_number();
        Timestamp { secs: days * SECONDS_PER_DAY + 86399 }
    }
}

impl Timestamp {
    /// The day this instant falls on, as days since 1970-01-01.
    /// Seconds before the epoch belong to the preceding days.
    pub open spec fn spec_day(self) -> int {
        floor_div(self.secs as int, SECONDS_PER_DAY as int)
    }

    /// Executable form of `spec_day`.
    pub fn day(self) -> (r: i64)
        ensures
            r as int == self.spec_day(),
    {
        if self.secs >= 0 {
            self.secs / SECONDS_PER_DAY
        } else {
            let q = (-1 - self.secs) / SECONDS_PER_DAY;
            -1 - q
        }
    }
}

/// Division rounding toward negative infinity, for a positive divisor.
pub open spec fn floor_div(n: int, d: int) -> int
    recommends
        d > 0,
{
    if n >= 0 {
        n / d
    } else {
        -1 - ((-1 - n) / d)
    }
}

/// Renders a date as `YYYY-MM-DD`, the ISO calendar-date format.
pub open spec fn date_rep(d: Date) -> Seq<char> {
    pad4_rep(d.year as int) + "-"@ + pad2_rep(d.month as int) + "-"@ + pad2_rep(d.day as int)
}

/// Renders an optional date as a date or the word `<unknown>`.
pub open spec fn opt_date_rep(d: OptionalDate) -> Seq<char> {
    match d.0 {
        Some(date) => date_rep(date),
        None => "<unknown>"@,
    }
}

/// Appends the `YYYY-MM-DD` form of `d` to `s`.
pub fn append_date(s: &mut String, d: Date)
    requires
        d.valid(),
    ensures
        final(s)@ == old(s)@ + date_rep(d),
{
    append_pad4(s, d.year as i64);
    s.append("-");
    append_pad2(s, d.month as i64);
    s.append("-");
    append_pad2(s, d.day as i64);
    proof {
        assert(final(s)@ =~= old(s)@ + date_rep(d));
    }
}

/// Appends the date, or `<unknown>` when there is none, to `s`.
pub fn append_opt_date(s: &mut String, d: &OptionalDate)
    requires
        d.wf(),
    ensures
        final(s)@ == old(s)@ + opt_date_rep(*d),
{
    match d.0 {
        Some(date) => append_date(s, date),
        None => s.append("<unknown>"),
    }
}

impl OptionalDate {
    /// The date inside, when known, is a valid one.
    pub open spec fn wf(self) -> bool {
        match self.0 {
            Some(d) => d.valid(),
            None => true,
        }
    }

    /// Whether two optional dates are the same: both unknown, or the same day.
    pub fn same_as(&self, other: &OptionalDate) -> (r: bool)
        ensures
            r == (self.0 == other.0),
    {
        match (self.0, other.0) {
            (None, None) => true,
            (Some(a), Some(b)) => a.year == b.year && a.month == b.month && a.day == b.day,
            _ => false,
        }
    }
}

} // verus!
