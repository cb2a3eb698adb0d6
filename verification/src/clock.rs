//! The wall clock.

use vstd::prelude::*;

verus! {

/// The earliest timestamp placed on the local calendar: one day after the
/// first second `chrono` represents (-262143-01-01 00:00:00), so that any
/// time-zone offset (less than a day) keeps the local date representable.
pub const CALENDAR_MIN: i64 = -8_334_601_142_400;

/// The latest timestamp placed on the local calendar: one day before the
/// last second `chrono` represents (262142-12-31 23:59:59).
pub const CALENDAR_MAX: i64 = 8_210_266_790_399;

/// Whether a timestamp is placed on the local calendar.
pub open spec fn in_calendar_range(secs: i64) -> bool {
    CALENDAR_MIN <= secs <= CALENDAR_MAX
}

/// Whether a timestamp is placed on the local calendar.
pub fn calendar_range_contains(secs: i64) -> (r: bool)
    ensures
        r == in_calendar_range(secs),
{
    CALENDAR_MIN <= secs && secs <= CALENDAR_MAX
}

/// Number of seconds in a day.
pub const SECS_PER_DAY: i64 = 86_400;

/// The UTC date of a timestamp, counted in days from 0001-01-01 (day 1);
/// 1970-01-01 is day 719163.
pub open spec fn utc_day(timestamp: i64) -> int {
    timestamp / SECS_PER_DAY + 719_163
}

/// `chrono::Utc::now().timestamp()`: the current time in Unix seconds.
/// Nothing is promised of the reading.
#[verifier::external_body]
pub(crate) fn unix_now() -> (t: i64) {
    chrono::Utc::now().timestamp()
}

} // verus!
