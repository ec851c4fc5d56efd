//! Calendar dates, held as plain year, month and day numbers. The posts
//! table stores a post's publication date and its last-update date.

use chrono::Datelike;
use vstd::prelude::*;

verus! {

/// A day of the proleptic Gregorian calendar.
#[derive(Clone, Copy, Debug, PartialEq, Eq, Structural)]
pub struct Date {
    pub year: i32,
    pub month: u32,
    pub day: u32,
}

pub open spec fn is_leap_year(year: int) -> bool {
    (year % 4 == 0 && year % 100 != 0) || year % 400 == 0
}

pub open spec fn days_in_month(year: int, month: int) -> int {
    if month == 2 {
        if is_leap_year(year) { 29 } else { 28 }
    } else if month == 4 || month == 6 || month == 9 || month == 11 {
        30
    } else {
        31
    }
}

impl Date {
    /// The numbers name a day that the calendar has.
    pub open spec fn valid(self) -> bool {
        &&& 1 <= self.month <= 12
        &&& 1 <= self.day <= days_in_month(self.year as int, self.month as int)
    }
}

/// What `chrono::NaiveDate::parse_from_str(s, "%Y-%m-%d")` gives for the text
/// `s`, as year, month and day, or `None` where it returns an error.
pub uninterp spec fn ymd_parse(s: Seq<char>) -> Option<(i32, u32, u32)>;

#[verifier::external_type_specification]
#[verifier::external_body]
pub struct ExDateParseError(chrono::format::ParseError);

/// Calls `chrono::NaiveDate::parse_from_str` with the format `%Y-%m-%d` and
/// hands back the date's year, month and day. The contract claims that the
/// result is a function of the text alone (named `ymd_parse`), and that a
/// date it returns is a day of the calendar, as chrono's `NaiveDate` always is.
#[verifier::external_body]
pub(crate) fn parse_ymd(s: &str) -> (r: Result<Date, chrono::format::ParseError>)
    ensures
        r is Ok <==> ymd_parse(s@) is Some,
        r matches Ok(d) ==> ymd_parse(s@) == Some((d.year, d.month, d.day)) && d.valid(),
{
    match chrono::NaiveDate::parse_from_str(s, "%Y-%m-%d") {
        Ok(d) => Ok(Date { year: d.year(), month: d.month(), day: d.day() }),
        Err(e) => Err(e),
    }
}

/// Calls `chrono::Local::now().date_naive()`: today's date in the machine's
/// time zone. The contract claims only that it is a day of the calendar;
/// which day it is depends on the clock.
#[verifier::external_body]
pub(crate) fn default_to_today() -> (d: Date)
    ensures
        d.valid(),
{
    let d = chrono::Local::now().date_naive();
    Date { year: d.year(), month: d.month(), day: d.day() }
}

} // verus!
