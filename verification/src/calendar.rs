//! The proleptic Gregorian calendar, as far as the schedule needs it:
//! which civil dates exist, the running day number of a date, and the
//! weekday of a day number.

use vstd::prelude::*;

verus! {

/// Earliest year that a civil date may lie in.
pub const MIN_YEAR: i32 = -262_143;

/// Latest year that a civil date may lie in.
pub const MAX_YEAR: i32 = 262_142;

/// Gregorian leap-year rule.
pub open spec fn is_leap_year(year: int) -> bool {
    year % 4 == 0 && (year % 100 != 0 || year % 400 == 0)
}

/// Number of days in `month` (1 = January) of `year`.
pub open spec fn days_in_month(year: int, month: int) -> int {
    if month == 2 {
        if is_leap_year(year) { 29 } else { 28 }
    } else if month == 4 || month == 6 || month == 9 || month == 11 {
        30
    } else {
        31
    }
}

/// Whether `year`-`month`-`day` names a day of the calendar.
pub open spec fn is_valid_date(year: int, month: int, day: int) -> bool {
    &&& MIN_YEAR <= year <= MAX_YEAR
    &&& 1 <= month <= 12
    &&& 1 <= day <= days_in_month(year, month)
}

/// Days of `year` that lie before the first of `month`.
pub open spec fn days_before_month(year: int, month: int) -> int
    decreases month,
{
    if month <= 1 {
        0
    } else {
        days_before_month(year, month - 1) + days_in_month(year, month - 1)
    }
}

/// Days between January 1 of year 1 and January 1 of `year`.
pub open spec fn days_before_year(year: int) -> int {
    let y = year - 1;
    365 * y + y / 4 - y / 100 + y / 400
}

/// Running day number of a civil date: January 1 of year 1 is day 1.
pub open spec fn civil_day_number(year: int, month: int, day: int) -> int {
    days_before_year(year) + days_before_month(year, month) + day
}

/// Day number of a civil date, computed by `chrono`:
/// `NaiveDate::from_ymd_opt` followed by `Datelike::num_days_from_ce`.
///
/// Trusted: `from_ymd_opt` answers `None` exactly for dates that do not
/// exist or whose year is outside `MIN_YEAR..=MAX_YEAR`, and
/// `num_days_from_ce` counts the days of the proleptic Gregorian calendar
/// with January 1 of year 1 as day 1.
#[verifier::external_body]
pub(crate) fn day_number_of(year: i32, month: u32, day: u32) -> (r: Option<i32>)
    ensures
        r is Some <==> is_valid_date(year as int, month as int, day as int),
        r matches Some(n) ==> n == civil_day_number(year as int, month as int, day as int),
{
    match chrono::NaiveDate::from_ymd_opt(year, month, day) {
        Some(date) => Some(chrono::Datelike::num_days_from_ce(&date)),
        None => None,
    }
}

/// Weekday of a day number, counted from Monday (0) to Sunday (6).
/// Day 1 is a Monday.
pub open spec fn weekday_from_monday(day_number: int) -> int {
    (day_number - 1) % 7
}

/// Weekday index of `day_number`, Monday being 0.
pub fn weekday_index(day_number: i32) -> (r: u32)
    ensures
        r == weekday_from_monday(day_number as int),
        r < 7,
{
    let shifted: i64 = day_number as i64 - 1;
    let index: i64 = ((shifted % 7) + 7) % 7;
    index as u32
}

} // verus!
