//! Calendar dates as plain year/month/day values.
//!
//! Observations carry the calendar day a reading belongs to; the time of day
//! is discarded during normalization. Dates order chronologically, which for
//! year/month/day triples is the lexicographic order.

use vstd::prelude::*;
use core::cmp::Ordering;

verus! {

/// A proleptic Gregorian calendar date, held as plain numbers.
///
/// A well-formed value satisfies [`Date::valid`]: the month and day denote a
/// real calendar day and the year has at most four digits, matching the
/// tabular source's `YYYYMMDD` date fields.
#[derive(Debug, PartialEq, Eq, Structural, Clone, Copy)]
pub struct Date {
    pub year: u32,
    pub month: u32,
    pub day: u32,
}

/// Gregorian leap-year rule.
pub open spec fn leap_year(y: int) -> bool {
    y % 4 == 0 && (y % 100 != 0 || y % 400 == 0)
}

/// Number of days in month `m` of year `y`, for `1 <= m <= 12`.
pub open spec fn days_in_month(y: int, m: int) -> int {
    if m == 2 {
        if leap_year(y) {
            29
        } else {
            28
        }
    } else if m == 4 || m == 6 || m == 9 || m == 11 {
        30
    } else {
        31
    }
}

/// The triple `(y, m, d)` denotes a real day of the Gregorian calendar.
pub open spec fn valid_ymd(y: int, m: int, d: int) -> bool {
    &&& 1 <= m <= 12
    &&& 1 <= d <= days_in_month(y, m)
}

impl Date {
    /// Well-formedness: a real calendar day with a year of at most four digits.
    pub open spec fn valid(self) -> bool {
        &&& self.year <= 9999
        &&& valid_ymd(self.year as int, self.month as int, self.day as int)
    }

    /// Chronological order: lexicographic on (year, month, day).
    pub open spec fn cmp_spec(self, other: Date) -> Ordering {
        if self.year != other.year {
            if self.year < other.year {
                Ordering::Less
            } else {
                Ordering::Greater
            }
        } else if self.month != other.month {
            if self.month < other.month {
                Ordering::Less
            } else {
                Ordering::Greater
            }
        } else if self.day != other.day {
            if self.day < other.day {
                Ordering::Less
            } else {
                Ordering::Greater
            }
        } else {
            Ordering::Equal
        }
    }

    /// Compares two dates chronologically.
    pub fn compare(&self, other: &Date) -> (r: Ordering)
        ensures
            r == self.cmp_spec(*other),
            r == Ordering::Equal <==> *self == *other,
    {
        if self.year != other.year {
            if self.year < other.year {
                Ordering::Less
            } else {
                Ordering::Greater
            }
        } else if self.month != other.month {
            if self.month < other.month {
                Ordering::Less
            } else {
                Ordering::Greater
            }
        } else if self.day != other.day {
            if self.day < other.day {
                Ordering::Less
            } else {
                Ordering::Greater
            }
        } else {
            Ordering::Equal
        }
    }
}

} // verus!
