//! The calendar and the wall clock, read through `chrono`.

use vstd::prelude::*;

verus! {

/// The number of the day that `text` spells as `YYYY-MM-DD`, counted from
/// January 1 of the year 1, or `None` where `text` spells no date. This is
/// what `chrono` makes of the text: a name for its answer, not a definition.
pub uninterp spec fn date_number(text: Seq<char>) -> Option<i32>;

/// Whether `text` spells a time of day as `HH:MM:SS`, as `chrono` reads it.
pub uninterp spec fn spells_time(text: Seq<char>) -> bool;

/// Parses a date written as `YYYY-MM-DD` into the number of its day.
///
/// Calls `chrono::NaiveDate::parse_from_str` with the pattern `%Y-%m-%d` and
/// numbers the date with `Datelike::num_days_from_ce`. The answer depends on
/// the text alone; the contract gives it its name.
#[verifier::external_body]
pub(crate) fn parse_date(text: &str) -> (day: Option<i32>)
    ensures
        day == date_number(text@),
{
    match chrono::NaiveDate::parse_from_str(text, "%Y-%m-%d") {
        Ok(date) => Some(chrono::Datelike::num_days_from_ce(&date)),
        Err(_) => None,
    }
}

/// Whether `text` is a time of day written as `HH:MM:SS`.
///
/// Calls `chrono::NaiveTime::parse_from_str` with the pattern `%H:%M:%S` and
/// tells whether it succeeded. The answer depends on the text alone.
#[verifier::external_body]
pub(crate) fn is_time(text: &str) -> (ok: bool)
    ensures
        ok == spells_time(text@),
{
    chrono::NaiveTime::parse_from_str(text, "%H:%M:%S").is_ok()
}

/// The number of today's day in UTC.
///
/// Calls `chrono::Utc::now` and numbers the calendar date of that moment with
/// `Datelike::num_days_from_ce`. The answer changes with the clock, so the
/// contract promises nothing of it.
#[verifier::external_body]
pub(crate) fn utc_today() -> (day: i32) {
    chrono::Datelike::num_days_from_ce(&chrono::Utc::now().naive_utc().date())
}

/// The pattern that stamps a moment to the second.
pub open spec fn second_pattern() -> Seq<char> {
    "%Y-%m-%d_%H%M%S"@
}

/// The pattern that stamps a day.
pub open spec fn day_pattern() -> Seq<char> {
    "%Y-%m-%d"@
}

/// The local time of this moment, written after `pattern`.
///
/// Calls `chrono::Local::now` and formats the moment with `DateTime::format`.
/// The two patterns admitted are made of specifiers that `chrono` knows, so
/// the formatting cannot fail. The text depends on the clock and the time
/// zone of the machine: the contract promises nothing of it.
#[verifier::external_body]
pub(crate) fn local_stamp(pattern: &str) -> (stamp: String)
    requires
        pattern@ == second_pattern() || pattern@ == day_pattern(),
{
    chrono::Local::now().format(pattern).to_string()
}

/// The number of the day that `text` spells as `YYYY-MM-DD`, if it spells one.
pub fn day_number(text: &str) -> (day: Option<i32>)
    ensures
        day == date_number(text@),
{
    parse_date(text)
}

/// The number of today's day in UTC, whatever the clock says it is.
pub fn today() -> (day: i32) {
    utc_today()
}

} // verus!
