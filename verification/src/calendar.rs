use vstd::prelude::*;

use crate::month::{spec_month_index, spec_prev_month, Month};

verus! {

/// A year is a leap year iff it is divisible by 400, or divisible by 4 but
/// not by 100.
pub open spec fn spec_is_leap_year(y: int) -> bool {
    y % 400 == 0 || (y % 4 == 0 && y % 100 != 0)
}

/// Number of days in year `y`: 366 in a leap year, 365 otherwise.
pub open spec fn spec_days_in_year(y: int) -> int {
    if spec_is_leap_year(y) {
        366
    } else {
        365
    }
}

/// Number of days in month `m` of year `y`, per the fixed month-length table;
/// February's length depends on the leap-year rule.
pub open spec fn spec_days_in_month(y: int, m: Month) -> int {
    match m {
        Month::January => 31,
        Month::February => if spec_is_leap_year(y) {
            29
        } else {
            28
        },
        Month::March => 31,
        Month::April => 30,
        Month::May => 31,
        Month::June => 30,
        Month::July => 31,
        Month::August => 31,
        Month::September => 30,
        Month::October => 31,
        Month::November => 30,
        Month::December => 31,
    }
}

/// Number of days of year `y` that precede the first day of month `m`.
pub open spec fn spec_days_before_month(y: int, m: Month) -> int
    decreases spec_month_index(m),
{
    if m == Month::January {
        0
    } else {
        spec_days_before_month(y, spec_prev_month(m)) + spec_days_in_month(y, spec_prev_month(m))
    }
}

/// Takes in a year (e.g. 2019) and returns the number of days in that year.
pub fn days_in_year(year: u64) -> (r: u64)
    ensures
        r == spec_days_in_year(year as int),
        r == 366 <==> spec_is_leap_year(year as int),
        365 <= r <= 366,
{
    if year % 400 == 0 {
        366
    } else if year % 100 == 0 {
        365
    } else if year % 4 == 0 {
        366
    } else {
        365
    }
}

/// Takes in a year and month (e.g. 2020, February) and returns the number of
/// days in that month.
pub fn days_in_month(year: u64, month: Month) -> (r: u64)
    ensures
        r == spec_days_in_month(year as int, month),
        28 <= r <= 31,
{
    match month {
        Month::January => 31,
        Month::February => if days_in_year(year) == 366 {
            29
        } else {
            28
        },
        Month::March => 31,
        Month::April => 30,
        Month::May => 31,
        Month::June => 30,
        Month::July => 31,
        Month::August => 31,
        Month::September => 30,
        Month::October => 31,
        Month::November => 30,
        Month::December => 31,
    }
}

/// Returns the number of seconds in a day.
pub fn seconds_in_day() -> (r: u64)
    ensures
        r == 86400,
{
    24 * 60 * 60
}

/// Returns the number of seconds in an hour.
pub fn seconds_in_hour() -> (r: u64)
    ensures
        r == 3600,
{
    60 * 60
}

/// Returns the number of seconds in a minute.
pub fn seconds_in_minute() -> (r: u64)
    ensures
        r == 60,
{
    60
}

/// Law: the twelve month lengths of year `y` sum to the length of the year.
pub proof fn lemma_months_cover_year(y: int)
    ensures
        spec_days_before_month(y, Month::December) + spec_days_in_month(y, Month::December)
            == spec_days_in_year(y),
{
    reveal_with_fuel(spec_days_before_month, 13);
}

} // verus!
