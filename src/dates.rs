//! Calendar dates as day numbers, with chrono doing the calendar work.
use chrono::Datelike;
use vstd::prelude::*;

verus! {

/// Day number (January 1 of year 1 is day 1) of January 1, 262144 BCE, the
/// first date the calendar can hold.
pub const MIN_DAY: i32 = -95746129;

/// Day number of December 31, 262142 CE, the last date the calendar can hold.
pub const MAX_DAY: i32 = 95745399;

/// The format of an ISO date, `YYYY-MM-DD`.
pub const ISO_FORMAT: &'static str = "%Y-%m-%d";

/// The day number of the date that `text` denotes in `format`, or `None`
/// where the text is no such date.
pub uninterp spec fn parsed_day(text: Seq<char>, format: Seq<char>) -> Option<i32>;

/// The ISO text `YYYY-MM-DD` of a day number of the calendar's range.
pub uninterp spec fn iso_text(day: i32) -> Seq<char>;

/// Whether a day number lies in the calendar's range.
pub open spec fn in_calendar(day: int) -> bool {
    MIN_DAY <= day <= MAX_DAY
}

/// Relies on chrono's `NaiveDate::parse_from_str`, and on
/// `Datelike::num_days_from_ce` to turn the date into its day number; every
/// date chrono holds lies between `NaiveDate::MIN` and `NaiveDate::MAX`.
#[verifier::external_body]
pub(crate) fn parse_day(text: &str, format: &str) -> (r: Option<i32>)
    ensures
        r == parsed_day(text@, format@),
        r matches Some(d) ==> in_calendar(d as int),
{
    chrono::NaiveDate::parse_from_str(text, format).ok().map(|d| d.num_days_from_ce())
}

/// Relies on chrono's `NaiveDate::from_num_days_from_ce_opt`, which is `None`
/// exactly outside `NaiveDate::MIN..=NaiveDate::MAX`, and on
/// `Display for NaiveDate`, which writes `%Y-%m-%d`.
#[verifier::external_body]
pub(crate) fn format_iso_day(day: i32) -> (r: Option<String>)
    ensures
        r is Some <==> in_calendar(day as int),
        r matches Some(t) ==> t@ == iso_text(day),
{
    chrono::NaiveDate::from_num_days_from_ce_opt(day).map(|d| d.to_string())
}

} // verus!
