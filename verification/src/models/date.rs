//! Calendar dates as plain numbers, and the reading of a date from text.

use chrono::Datelike;
use vstd::prelude::*;

verus! {

/// A calendar date: year, month of the year and day of the month.
#[derive(Debug, Clone, Copy, PartialEq, Eq, Structural)]
pub struct Date {
    pub year: i32,
    pub month: u32,
    pub day: u32,
}

/// The date that `chrono::NaiveDate::parse_from_str` reads from `text`
/// under the format `format`, as year, month and day; `None` where it
/// reports an error.
pub uninterp spec fn parsed_date(text: Seq<char>, format: Seq<char>) -> Option<(int, int, int)>;

/// The whole days from the date `from` to the date `to`, each given as
/// year, month and day, as `chrono` counts them: what
/// `chrono::NaiveDate::signed_duration_since` gives for the two, in days.
/// Negative where `to` is the earlier one; `None` where
/// `chrono::NaiveDate::from_ymd_opt` takes one of the two for no date.
pub uninterp spec fn days_between(from: (int, int, int), to: (int, int, int)) -> Option<int>;

/// A count of days that may be missing, as an integer.
pub open spec fn whole_days(days: Option<i64>) -> Option<int> {
    match days {
        Some(d) => Some(d as int),
        None => None,
    }
}

/// Year, month and day of a date that may be missing.
pub open spec fn date_fields(date: Option<Date>) -> Option<(int, int, int)> {
    match date {
        Some(d) => Some(d.fields()),
        None => None,
    }
}

impl Date {
    /// Year, month and day as integers.
    pub open spec fn fields(self) -> (int, int, int) {
        (self.year as int, self.month as int, self.day as int)
    }

    /// The month is one of the twelve and the day lies between 1 and 31.
    pub open spec fn well_formed(self) -> bool {
        1 <= self.month <= 12 && 1 <= self.day <= 31
    }

    /// The date that stands in for an expiry that is missing or cannot be
    /// read: 1 January 1970.
    pub open spec fn sentinel() -> Date {
        Date { year: 1970, month: 1, day: 1 }
    }

    /// Whether this is the stand-in date.
    pub fn is_sentinel(&self) -> (r: bool)
        ensures
            r == (*self == Date::sentinel()),
    {
        self.year == 1970 && self.month == 1 && self.day == 1
    }

    /// Reads a date from `text` under a `strftime` format.
    ///
    /// Trusted: calls `chrono::NaiveDate::parse_from_str` and copies year,
    /// month and day out of the date it returns. The contract names the
    /// outcome and adds what `chrono::Datelike` documents of every date:
    /// a month from 1 to 12 and a day from 1 to 31.
    #[verifier::external_body]
    pub(crate) fn parse_from_str(text: &str, format: &str) -> (r: Option<Date>)
        ensures
            date_fields(r) == parsed_date(text@, format@),
            r matches Some(d) ==> d.well_formed(),
    {
        match chrono::NaiveDate::parse_from_str(text, format) {
            Ok(d) => Some(Date { year: d.year(), month: d.month(), day: d.day() }),
            Err(_) => None,
        }
    }
}

/// Counts the whole days from one date to another.
///
/// Trusted: makes a `chrono::NaiveDate` of each date with `from_ymd_opt`,
/// subtracts them with `signed_duration_since` and takes `num_days` of the
/// difference. The contract names the count and claims nothing else of it.
#[verifier::external_body]
pub(crate) fn signed_days_between(from: &Date, to: &Date) -> (days: Option<i64>)
    ensures
        whole_days(days) == days_between(from.fields(), to.fields()),
{
    let from = chrono::NaiveDate::from_ymd_opt(from.year, from.month, from.day)?;
    let to = chrono::NaiveDate::from_ymd_opt(to.year, to.month, to.day)?;
    Some(to.signed_duration_since(from).num_days())
}

impl Default for Date {
    /// The stand-in date, 1 January 1970.
    fn default() -> (r: Self)
        ensures
            r == Date::sentinel(),
    {
        Date { year: 1970, month: 1, day: 1 }
    }
}

} // verus!
