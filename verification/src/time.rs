//! Calendar dates, as plain year / month / day values.
//!
//! Expense dates and date filters need only construction, comparison and the
//! first-of-month; the clock itself is read outside the library and handed in.

use vstd::prelude::*;

verus! {

/// Whether `year` is a leap year of the Gregorian calendar.
pub open spec fn spec_is_leap_year(year: i32) -> bool {
    year % 4 == 0 && (year % 100 != 0 || year % 400 == 0)
}

/// How many days `month` has in `year`.
pub open spec fn spec_days_in_month(year: i32, month: u8) -> u8 {
    if month == 2 {
        if spec_is_leap_year(year) {
            29
        } else {
            28
        }
    } else if month == 4 || month == 6 || month == 9 || month == 11 {
        30
    } else {
        31
    }
}

/// The dates the library accepts: years 0 through 9999, real months, days that
/// exist in their month.
pub open spec fn valid_date(year: i32, month: u8, day: u8) -> bool {
    &&& 0 <= year <= 9999
    &&& 1 <= month <= 12
    &&& 1 <= day <= spec_days_in_month(year, month)
}

/// A calendar date.
#[derive(Debug, Clone, Copy, PartialEq, Eq, Structural)]
pub struct Date {
    pub year: i32,
    pub month: u8,
    pub day: u8,
}

impl Date {
    /// Whether the date is a real calendar date in the accepted range.
    pub open spec fn wf(self) -> bool {
        valid_date(self.year, self.month, self.day)
    }

    /// Builds a date, accepting exactly the valid ones.
    pub fn new(year: i32, month: u8, day: u8) -> (r: Option<Date>)
        ensures
            r is Some <==> valid_date(year, month, day),
            r matches Some(d) ==> d == (Date { year, month, day }),
    {
        if year < 0 || year > 9999 || month < 1 || month > 12 {
            return None;
        }
        let days = days_in_month(year, month);
        if day < 1 || day > days {
            return None;
        }
        Some(Date { year, month, day })
    }

    /// Decides whether the date is a real calendar date in the accepted range.
    pub fn is_wf(&self) -> (r: bool)
        ensures
            r == self.wf(),
    {
        if self.year < 0 || self.year > 9999 || self.month < 1 || self.month > 12 {
            return false;
        }
        self.day >= 1 && self.day <= days_in_month(self.year, self.month)
    }

    /// The first day of this date's month.
    pub fn month_start(&self) -> (r: Date)
        requires
            self.wf(),
        ensures
            r.wf(),
            r.year == self.year,
            r.month == self.month,
            r.day == 1,
    {
        Date { year: self.year, month: self.month, day: 1 }
    }

    /// Whether this date lies at or after `other`, in calendar order.
    pub open spec fn spec_on_or_after(self, other: Date) -> bool {
        if self.year != other.year {
            self.year > other.year
        } else if self.month != other.month {
            self.month > other.month
        } else {
            self.day >= other.day
        }
    }

    /// Decides calendar order.
    pub fn on_or_after(&self, other: &Date) -> (r: bool)
        ensures
            r == self.spec_on_or_after(*other),
    {
        if self.year != other.year {
            self.year > other.year
        } else if self.month != other.month {
            self.month > other.month
        } else {
            self.day >= other.day
        }
    }
}

/// Whether `year` is a leap year.
pub fn is_leap_year(year: i32) -> (r: bool)
    requires
        0 <= year,
    ensures
        r == spec_is_leap_year(year),
{
    year % 4 == 0 && (year % 100 != 0 || year % 400 == 0)
}

/// How many days `month` has in `year`.
pub fn days_in_month(year: i32, month: u8) -> (r: u8)
    requires
        0 <= year,
        1 <= month <= 12,
    ensures
        r == spec_days_in_month(year, month),
{
    if month == 2 {
        if is_leap_year(year) {
            29
        } else {
            28
        }
    } else if month == 4 || month == 6 || month == 9 || month == 11 {
        30
    } else {
        31
    }
}

} // verus!
