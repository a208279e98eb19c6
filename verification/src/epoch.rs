use vstd::arithmetic::div_mod::{lemma_add_mod_noop, lemma_mod_bound};
use vstd::prelude::*;

use std::time::{SystemTime, SystemTimeError};

use crate::calendar::{
    days_in_month, days_in_year, lemma_months_cover_year, seconds_in_day, seconds_in_hour,
    seconds_in_minute, spec_days_before_month, spec_days_in_month, spec_days_in_year,
};
use crate::month::{index_from_month, month_from_index, spec_month_index, spec_next_month, Month};
use crate::weekday::{spec_next_day, Day};

verus! {

#[verifier::external_type_specification]
#[verifier::external_body]
pub struct ExSystemTime(SystemTime);

#[verifier::external_type_specification]
#[verifier::external_body]
pub struct ExSystemTimeError(SystemTimeError);

/// Relies on `SystemTime::duration_since` against `SystemTime::UNIX_EPOCH`,
/// which returns the elapsed duration when the instant is not earlier than the
/// epoch and an error otherwise, and on `Duration::subsec_nanos`, whose result
/// is documented to be below one billion. Nothing is assumed about which of
/// the two outcomes occurs, since the instant is opaque here.
#[verifier::external_body]
fn secs_nanos_since_epoch(st: &SystemTime) -> (r: Result<(u64, u32), SystemTimeError>)
    ensures
        r matches Ok(p) ==> p.1 < 1_000_000_000,
{
    match st.duration_since(SystemTime::UNIX_EPOCH) {
        Ok(d) => Ok((d.as_secs(), d.subsec_nanos())),
        Err(e) => Err(e),
    }
}

/// Relies on `SystemTime::now` to read the system clock; nothing is assumed
/// of the instant it returns.
#[verifier::external_body]
fn system_now() -> SystemTime {
    SystemTime::now()
}

/// Total number of days in the calendar years 1970 (inclusive) up to `y`
/// (exclusive); 0 for any `y` at or before 1970.
pub open spec fn spec_days_before_year(y: int) -> int
    decreases y,
{
    if y <= 1970 {
        0
    } else {
        spec_days_before_year(y - 1) + spec_days_in_year(y - 1)
    }
}

/// Year and 0-based day offset reached from day offset `days` within the years
/// starting at `year`: whole years are consumed until fewer days remain than
/// the current year holds.
pub open spec fn spec_year_scan(year: int, days: int) -> (int, int)
    decreases days when days >= 0
{
    if days < spec_days_in_year(year) {
        (year, days)
    } else {
        spec_year_scan(year + 1, days - spec_days_in_year(year))
    }
}

/// The calendar year that day `days` (counted from the epoch) falls in.
pub open spec fn spec_year_of(days: int) -> int {
    spec_year_scan(1970, days).0
}

/// The 0-based day offset within its year of day `days` (counted from the
/// epoch).
pub open spec fn spec_day_of_year0(days: int) -> int {
    spec_year_scan(1970, days).1
}

/// Month and 0-based day offset reached from day offset `d` within the months
/// of year `y` starting at `m`: whole months are consumed until fewer days
/// remain than the current month holds, stopping in any case at December.
pub open spec fn spec_month_scan(y: int, m: Month, d: int) -> (Month, int)
    decreases 13 - spec_month_index(m),
{
    if d < spec_days_in_month(y, m) || m == Month::December {
        (m, d)
    } else {
        spec_month_scan(y, spec_next_month(m), d - spec_days_in_month(y, m))
    }
}

/// The month that the 0-based day offset `d` of year `y` falls in.
pub open spec fn spec_month_of(y: int, d: int) -> Month {
    spec_month_scan(y, Month::January, d).0
}

/// The 0-based day offset within its month of the 0-based day offset `d` of
/// year `y`.
pub open spec fn spec_day_of_month0(y: int, d: int) -> int {
    spec_month_scan(y, Month::January, d).1
}

/// Weekday of the day with 0-based index `days` since the epoch. Day 0
/// (1970-01-01) fell on a Thursday, which anchors the cycle.
pub open spec fn spec_day_of_week_of(days: int) -> Day {
    let r = days % 7;
    if r == 0 {
        Day::Thursday
    } else if r == 1 {
        Day::Friday
    } else if r == 2 {
        Day::Saturday
    } else if r == 3 {
        Day::Sunday
    } else if r == 4 {
        Day::Monday
    } else if r == 5 {
        Day::Tuesday
    } else {
        Day::Wednesday
    }
}

/// A point in time at or after the Unix epoch, stored as the elapsed duration
/// since the epoch: whole seconds plus a sub-second nanosecond part. The
/// elapsed time is fixed at construction; every calendar and clock field is
/// recomputed from it on demand, so there is no derived state to invalidate.
pub struct PostEpochTime {
    secs: u64,
    nanos: u32,
}

impl PostEpochTime {
    /// Whole seconds of the stored elapsed time.
    pub closed spec fn spec_secs(self) -> u64 {
        self.secs
    }

    /// Sub-second part of the stored elapsed time, in nanoseconds.
    pub closed spec fn spec_nanos(self) -> u32 {
        self.nanos
    }

    /// Well-formedness: the sub-second part is a proper fraction of a second.
    pub open spec fn wf(self) -> bool {
        self.spec_nanos() < 1_000_000_000
    }

    /// Whole days of the stored elapsed time.
    pub open spec fn spec_days(self) -> int {
        self.spec_secs() as int / 86400
    }

    /// Create a `PostEpochTime` from a `SystemTime`. The `SystemTime` must be
    /// temporally in the future relative to the unix epoch, or an error will
    /// be returned.
    pub fn from(st: &SystemTime) -> (r: Result<Self, SystemTimeError>)
        ensures
            r matches Ok(p) ==> p.wf(),
    {
        match secs_nanos_since_epoch(st) {
            Ok((s, n)) => Ok(PostEpochTime { secs: s, nanos: n }),
            Err(e) => Err(e),
        }
    }

    /// Create a `PostEpochTime` for the current instant. The current instant
    /// must be in the future relative to the unix epoch, or an error will be
    /// returned.
    pub fn now() -> (r: Result<Self, SystemTimeError>)
        ensures
            r matches Ok(p) ==> p.wf(),
    {
        Self::from(&system_now())
    }

    /// Create a `PostEpochTime` a given number of whole seconds plus
    /// sub-second nanoseconds after the unix epoch.
    pub fn from_parts(secs: u64, nanos: u32) -> (r: Self)
        requires
            nanos < 1_000_000_000,
        ensures
            r.spec_secs() == secs,
            r.spec_nanos() == nanos,
            r.wf(),
    {
        PostEpochTime { secs, nanos }
    }

    /// Returns the number of milliseconds passed since the unix epoch.
    pub fn milliseconds_since_epoch(&self) -> (r: u128)
        ensures
            r == self.spec_secs() * 1000 + self.spec_nanos() / 1_000_000,
    {
        self.secs as u128 * 1000 + (self.nanos / 1_000_000) as u128
    }

    /// Returns the number of microseconds passed since the unix epoch.
    pub fn microseconds_since_epoch(&self) -> (r: u128)
        ensures
            r == self.spec_secs() * 1_000_000 + self.spec_nanos() / 1000,
    {
        self.secs as u128 * 1_000_000 + (self.nanos / 1000) as u128
    }

    /// Returns the number of nanoseconds passed since the unix epoch.
    pub fn nanoseconds_since_epoch(&self) -> (r: u128)
        ensures
            r == self.spec_secs() * 1_000_000_000 + self.spec_nanos(),
    {
        self.secs as u128 * 1_000_000_000 + self.nanos as u128
    }

    /// Returns the number of complete seconds passed since the unix epoch.
    pub fn seconds_since_epoch(&self) -> (r: u64)
        ensures
            r == self.spec_secs(),
    {
        self.secs
    }

    /// Returns the number of complete days passed since the unix epoch.
    pub fn days_since_epoch(&self) -> (r: u64)
        ensures
            r == self.spec_days(),
    {
        self.secs / seconds_in_day()
    }

    /// Returns the day of the week that this point in time falls on.
    pub fn day_of_week(&self) -> (r: Day)
        ensures
            r == spec_day_of_week_of(self.spec_days()),
    {
        let rem: u64 = self.days_since_epoch() % 7;
        if rem == 0 {
            Day::Thursday
        } else if rem == 1 {
            Day::Friday
        } else if rem == 2 {
            Day::Saturday
        } else if rem == 3 {
            Day::Sunday
        } else if rem == 4 {
            Day::Monday
        } else if rem == 5 {
            Day::Tuesday
        } else {
            Day::Wednesday
        }
    }

    /// Splits the elapsed days since the epoch into the calendar year they
    /// fall in and the remaining 0-based day offset within that year, by
    /// consuming whole years forward from 1970.
    fn year_split(&self) -> (r: (u64, u64))
        ensures
            r.0 as int == spec_year_of(self.spec_days()),
            r.1 as int == spec_day_of_year0(self.spec_days()),
            1970 <= r.0,
            r.1 < spec_days_in_year(r.0 as int),
            spec_days_before_year(r.0 as int) + r.1 == self.spec_days(),
    {
        let mut days: u64 = self.days_since_epoch();
        let mut year: u64 = 1970;
        let ghost days0: int = self.spec_days();
        loop
            invariant
                1970 <= year,
                365 * (year - 1970) <= days0 - days,
                days <= days0 <= u64::MAX,
                spec_days_before_year(year as int) + days == days0,
                spec_year_scan(year as int, days as int) == spec_year_scan(1970, days0),
                days0 == self.spec_days(),
            ensures
                days < spec_days_in_year(year as int),
            decreases days,
        {
            let in_year: u64 = days_in_year(year);
            if days < in_year {
                break;
            }
            days = days - in_year;
            year = year + 1;
        }
        (year, days)
    }

    /// Returns the year (e.g. 2020) this point in time falls on.
    pub fn year(&self) -> (r: u64)
        ensures
            r == spec_year_of(self.spec_days()),
            1970 <= r,
            spec_days_before_year(r as int) <= self.spec_days() < spec_days_before_year(r as int)
                + spec_days_in_year(r as int),
    {
        self.year_split().0
    }

    /// Returns the day of the year for this point in time (1-indexed).
    /// A return value of 1 indicates January 1, a value of 2 indicates
    /// January 2, and so on. If the year is a leap year the largest returned
    /// value would be 366, and for non-leap years it would be 365.
    pub fn day_of_year(&self) -> (r: u64)
        ensures
            r == spec_day_of_year0(self.spec_days()) + 1,
            1 <= r <= 366,
            r <= spec_days_in_year(spec_year_of(self.spec_days())),
            spec_days_before_year(spec_year_of(self.spec_days())) + r - 1 == self.spec_days(),
    {
        self.year_split().1 + 1
    }

    /// Splits the 0-based day offset within the year of this point in time
    /// into the month it falls in and the remaining 0-based day offset within
    /// that month, by consuming whole months forward from January.
    fn month_split(&self) -> (r: (Month, u64))
        ensures
            r.0 == spec_month_of(spec_year_of(self.spec_days()), spec_day_of_year0(self.spec_days())),
            r.1 as int == spec_day_of_month0(
                spec_year_of(self.spec_days()),
                spec_day_of_year0(self.spec_days()),
            ),
            r.1 < spec_days_in_month(spec_year_of(self.spec_days()), r.0),
            spec_days_before_month(spec_year_of(self.spec_days()), r.0) + r.1
                == spec_day_of_year0(self.spec_days()),
    {
        let (year, split_days) = self.year_split();
        let mut days: u64 = split_days;
        let mut month = Month::January;
        let ghost y: int = year as int;
        let ghost doy0: int = split_days as int;
        loop
            invariant
                spec_days_before_month(y, month) + days == doy0,
                doy0 < spec_days_in_year(y),
                spec_month_scan(y, month, days as int) == spec_month_scan(y, Month::January, doy0),
                y == spec_year_of(self.spec_days()),
                doy0 == spec_day_of_year0(self.spec_days()),
                year as int == y,
            ensures
                days < spec_days_in_month(y, month),
            decreases 13 - spec_month_index(month),
        {
            let in_month: u64 = days_in_month(year, month);
            if days < in_month {
                break;
            }
            proof {
                // Advancing past December never happens: the day offset was
                // already reduced below the length of the year, and the twelve
                // months cover the whole year.
                lemma_months_cover_year(y);
                assert(month != Month::December);
            }
            days = days - in_month;
            let next_index: u64 = index_from_month(month) + 1;
            month = month_from_index(next_index).unwrap();
        }
        (month, days)
    }

    /// Returns the month this point in time falls on.
    pub fn month(&self) -> (r: Month)
        ensures
            r == spec_month_of(spec_year_of(self.spec_days()), spec_day_of_year0(self.spec_days())),
            spec_days_before_month(spec_year_of(self.spec_days()), r) <= spec_day_of_year0(
                self.spec_days(),
            ) < spec_days_before_month(spec_year_of(self.spec_days()), r) + spec_days_in_month(
                spec_year_of(self.spec_days()),
                r,
            ),
    {
        self.month_split().0
    }

    /// Returns the day of the month for this point in time (1-indexed).
    /// A return value of 1 means it falls on the first of the month. The
    /// maximum returned value will be 31.
    pub fn day_of_month(&self) -> (r: u64)
        ensures
            r == spec_day_of_month0(
                spec_year_of(self.spec_days()),
                spec_day_of_year0(self.spec_days()),
            ) + 1,
            1 <= r <= 31,
            spec_days_before_month(
                spec_year_of(self.spec_days()),
                spec_month_of(spec_year_of(self.spec_days()), spec_day_of_year0(self.spec_days())),
            ) + r - 1 == spec_day_of_year0(self.spec_days()),
    {
        self.month_split().1 + 1
    }

    /// Returns the second within the day (0-indexed). This will be in the
    /// range 0..86399 (inclusive).
    pub fn second_in_day(&self) -> (r: u64)
        ensures
            r == self.spec_secs() as int % 86400,
            r < 86400,
    {
        self.secs % seconds_in_day()
    }

    /// Returns the hour within the day (0-indexed). This will be in the range
    /// 0..23 (inclusive).
    pub fn hour(&self) -> (r: u64)
        ensures
            r == self.spec_secs() as int % 86400 / 3600,
            r <= 23,
    {
        self.second_in_day() / seconds_in_hour()
    }

    /// Returns the second within the hour (0-indexed). This will be in the
    /// range 0..3599 (inclusive).
    pub fn second_in_hour(&self) -> (r: u64)
        ensures
            r == self.spec_secs() as int % 86400 % 3600,
            r < 3600,
    {
        self.second_in_day() % seconds_in_hour()
    }

    /// Returns the minute within the hour (0-indexed). This will be in the
    /// range 0..59 (inclusive).
    pub fn minute(&self) -> (r: u64)
        ensures
            r == self.spec_secs() as int % 86400 % 3600 / 60,
            r <= 59,
    {
        self.second_in_hour() / seconds_in_minute()
    }

    /// Returns the second within the minute (0-indexed). This will be in the
    /// range 0..59 (inclusive).
    pub fn second(&self) -> (r: u64)
        ensures
            r == self.spec_secs() as int % 60,
            r <= 59,
    {
        self.secs % seconds_in_minute()
    }
}

/// Law: the weekday cycles with period 7 as the day index since the epoch
/// increments: each successive day advances the weekday by exactly one
/// position, and seven days later the weekday is the same again.
pub proof fn lemma_day_of_week_cycles(days: int)
    requires
        days >= 0,
    ensures
        spec_day_of_week_of(days + 1) == spec_next_day(spec_day_of_week_of(days)),
        spec_day_of_week_of(days + 7) == spec_day_of_week_of(days),
{
    lemma_add_mod_noop(days, 1, 7);
    lemma_add_mod_noop(days, 7, 7);
    lemma_mod_bound(days, 7);
}

} // verus!
