//! The days of a target period, reckoned with the numbers of the days.

use vstd::prelude::*;

verus! {

/// The last day of a target period that counts on the day `today`: yesterday
/// while the period has not ended, and the last day of the period from then
/// on.
pub open spec fn last_counted(today: int, target_end: int) -> int {
    if today < target_end {
        today - 1
    } else {
        target_end
    }
}

/// The last day of a target period that counts on the day `today`.
pub fn last_counted_day(today: i32, target_end: i32) -> (day: i64)
    ensures
        day == last_counted(today as int, target_end as int),
{
    if today < target_end {
        today as i64 - 1
    } else {
        target_end as i64
    }
}

/// How many days of a target period have passed on the day `today`: the days
/// from the start of the period to the last day that counts.
pub fn days_passed(today: i32, target_start: i32, target_end: i32) -> (days: i64)
    ensures
        days == last_counted(today as int, target_end as int) - target_start,
{
    last_counted_day(today, target_end) - target_start as i64
}

/// How many days a target period spans from its start to its end.
pub fn days_total(target_start: i32, target_end: i32) -> (days: i64)
    ensures
        days == target_end - target_start,
{
    target_end as i64 - target_start as i64
}

/// The day of a target period that the day `today` is, the first day of the
/// period being day one.
pub fn current_day(today: i32, target_start: i32, target_end: i32) -> (day: i64)
    ensures
        day == last_counted(today as int, target_end as int) - target_start + 1,
{
    days_passed(today, target_start, target_end) + 1
}

} // verus!
