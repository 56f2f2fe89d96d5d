//! The calendar date that a draft entry is filed under.

use chrono::Datelike;
use chrono::NaiveDate;
use vstd::prelude::*;

verus! {

/// `chrono::NaiveDate`, a date of the calendar, taken as it comes: nothing
/// inside it is seen here.
#[verifier::external_type_specification]
#[verifier::external_body]
pub struct ExNaiveDate(chrono::NaiveDate);

/// A day of the calendar, as the three numbers that an entry's path shows.
#[derive(Clone, Copy, Debug, PartialEq, Eq, Structural)]
pub struct DraftDate {
    /// The year; years before the year 1 are zero and below.
    pub year: i32,
    /// The month, counted from 1.
    pub month: u32,
    /// The day of the month, counted from 1.
    pub day: u32,
}

impl DraftDate {
    /// The month and the day lie in the calendar's ranges.
    pub open spec fn wf(&self) -> bool {
        &&& 1 <= self.month <= 12
        &&& 1 <= self.day <= 31
    }

    /// Reads the year, month and day off a calendar date.
    pub fn from_calendar(date: &NaiveDate) -> (d: DraftDate)
        ensures
            d.wf(),
    {
        DraftDate { year: calendar_year(date), month: calendar_month(date), day: calendar_day(date) }
    }
}

/// `chrono::Datelike::year` of a `NaiveDate`.  Nothing is claimed of the
/// number.
#[verifier::external_body]
fn calendar_year(date: &NaiveDate) -> (year: i32) {
    date.year()
}

/// `chrono::Datelike::month` of a `NaiveDate`.  Claimed: the month number
/// counts from 1 and does not pass 12.
#[verifier::external_body]
fn calendar_month(date: &NaiveDate) -> (month: u32)
    ensures
        1 <= month <= 12,
{
    date.month()
}

/// `chrono::Datelike::day` of a `NaiveDate`.  Claimed: the day of the month
/// counts from 1 and does not pass 31.
#[verifier::external_body]
fn calendar_day(date: &NaiveDate) -> (day: u32)
    ensures
        1 <= day <= 31,
{
    date.day()
}

} // verus!
