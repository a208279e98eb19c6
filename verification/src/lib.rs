//! Calendar and clock fields derived from elapsed time since the Unix epoch.
//!
//! The core type, [`PostEpochTime`], stores an immutable non-negative duration
//! since 00:00:00 on 1970-01-01 and derives calendar fields (year, month,
//! day-of-month, day-of-week, day-of-year) and clock fields (hour, minute,
//! second) from it with pure integer arithmetic. The [`weekday::Day`] and
//! [`month::Month`] enumerations carry the symbolic values together with their
//! display names, and the calendar module holds the leap-year rule and the
//! month-length table.

pub mod calendar;
pub mod display;
pub mod epoch;
pub mod month;
pub mod weekday;

pub use crate::calendar::{days_in_month, days_in_year, seconds_in_day, seconds_in_hour, seconds_in_minute};
pub use crate::epoch::PostEpochTime;
pub use crate::month::{index_from_month, month_abbrev_string, month_from_index, month_string, Month};
pub use crate::weekday::{day_abbrev_string, day_string, Day};
