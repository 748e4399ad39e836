//! Plain-value models of the time quantities the wire carries.
//!
//! The decoder never does calendar arithmetic; it only needs to hold what
//! it parsed. A duration is a count of milliseconds, a timestamp a count of
//! Unix epoch seconds (UTC), and a calendar date its year, month and day.
//! Callers that want a richer time library convert these plain values at
//! the boundary.

use vstd::prelude::*;

verus! {

/// A span of time, counted in milliseconds.
#[derive(Debug, Clone, Copy, PartialEq, Eq, Structural)]
pub struct Duration {
    pub milliseconds: i64,
}

/// A moment in time, counted in seconds since the Unix epoch, UTC.
#[derive(Debug, Clone, Copy, PartialEq, Eq, Structural)]
pub struct Timestamp {
    pub epoch_seconds: i64,
}

/// A calendar date in the proleptic Gregorian calendar.
#[derive(Debug, Clone, Copy, PartialEq, Eq, Structural)]
pub struct Date {
    pub year: u16,
    pub month: u8,
    pub day: u8,
}

/// A leap year of the proleptic Gregorian calendar.
pub open spec fn is_leap_year(y: int) -> bool {
    y % 4 == 0 && (y % 100 != 0 || y % 400 == 0)
}

/// How many days the given month of the given year has.
pub open spec fn days_in_month(y: int, m: int) -> int {
    if m == 2 {
        if is_leap_year(y) {
            29
        } else {
            28
        }
    } else if m == 4 || m == 6 || m == 9 || m == 11 {
        30
    } else {
        31
    }
}

/// A well-formed date: a real day of a real month, year below ten
/// thousand (the range a four-digit year can write).
pub open spec fn valid_ymd(y: int, m: int, d: int) -> bool {
    0 <= y < 10000 && 1 <= m <= 12 && 1 <= d <= days_in_month(y, m)
}

impl Date {
    /// The date is a real day of the calendar.
    pub open spec fn well_formed(&self) -> bool {
        valid_ymd(self.year as int, self.month as int, self.day as int)
    }
}

} // verus!
