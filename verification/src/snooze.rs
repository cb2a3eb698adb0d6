//! Snooze presets: which weekday and hour each option of the snooze
//! picker lands on.
//!
//! Times are Unix timestamps (seconds, UTC). Calendar days and hours are
//! local to the machine's time zone, which `chrono` resolves.

use chrono::{Datelike, TimeZone};
use vstd::prelude::*;

use crate::clock::{calendar_range_contains, in_calendar_range, utc_day, SECS_PER_DAY};
use crate::config::SnoozePresets;
use crate::text::{decimal, decimal_string, push_str};

verus! {

/// Days of the week, Monday first.
#[derive(Debug, Clone, Copy, PartialEq, Eq, Structural)]
pub enum Weekday {
    Mon,
    Tue,
    Wed,
    Thu,
    Fri,
    Sat,
    Sun,
}

/// Days since Monday: 0 for Monday .. 6 for Sunday.
pub open spec fn weekday_index(w: Weekday) -> int {
    match w {
        Weekday::Mon => 0,
        Weekday::Tue => 1,
        Weekday::Wed => 2,
        Weekday::Thu => 3,
        Weekday::Fri => 4,
        Weekday::Sat => 5,
        Weekday::Sun => 6,
    }
}

impl Weekday {
    /// Days since Monday: 0 for Monday .. 6 for Sunday.
    pub fn num_days_from_monday(&self) -> (r: u32)
        ensures
            r == weekday_index(*self),
    {
        match self {
            Weekday::Mon => 0,
            Weekday::Tue => 1,
            Weekday::Wed => 2,
            Weekday::Thu => 3,
            Weekday::Fri => 4,
            Weekday::Sat => 5,
            Weekday::Sun => 6,
        }
    }

    /// The weekday `n` days after Monday, for `n` below 7.
    pub fn from_days_from_monday(n: u32) -> (w: Weekday)
        requires
            n < 7,
        ensures
            weekday_index(w) == n,
    {
        match n {
            0 => Weekday::Mon,
            1 => Weekday::Tue,
            2 => Weekday::Wed,
            3 => Weekday::Thu,
            4 => Weekday::Fri,
            5 => Weekday::Sat,
            _ => Weekday::Sun,
        }
    }
}

/// The weekday a preset day number names: 0 = Monday .. 5 = Saturday,
/// anything else Sunday.
pub open spec fn preset_weekday(d: u8) -> Weekday {
    if d == 0 {
        Weekday::Mon
    } else if d == 1 {
        Weekday::Tue
    } else if d == 2 {
        Weekday::Wed
    } else if d == 3 {
        Weekday::Thu
    } else if d == 4 {
        Weekday::Fri
    } else if d == 5 {
        Weekday::Sat
    } else {
        Weekday::Sun
    }
}

/// The weekday of a preset day number (0 = Monday .. 6 = Sunday).
pub fn weekday_from_preset(preset_day: u8) -> (w: Weekday)
    ensures
        w == preset_weekday(preset_day),
{
    match preset_day {
        0 => Weekday::Mon,
        1 => Weekday::Tue,
        2 => Weekday::Wed,
        3 => Weekday::Thu,
        4 => Weekday::Fri,
        5 => Weekday::Sat,
        _ => Weekday::Sun,
    }
}

/// Days from `from` until the next `to`, 0 when they are the same day.
pub open spec fn days_between(from: Weekday, to: Weekday) -> int {
    (weekday_index(to) - weekday_index(from) + 7) % 7
}

/// Number of days from `from` until the next occurrence of `to`.
///
/// Returns 0 if they are the same weekday.
pub fn days_until_next(from: Weekday, to: Weekday) -> (r: u32)
    ensures
        r == days_between(from, to),
        r < 7,
{
    let from = from.num_days_from_monday();
    let to = to.num_days_from_monday();
    if to >= from {
        to - from
    } else {
        7 - (from - to)
    }
}

/// Days until the next-week snooze: the next Monday, a full week on a
/// Monday.
pub open spec fn next_week_days_spec(today: Weekday) -> int {
    if days_between(today, Weekday::Mon) == 0 {
        7
    } else {
        days_between(today, Weekday::Mon)
    }
}

/// Days until the next-week snooze.
pub fn next_week_days(today: Weekday) -> (r: u32)
    ensures
        r == next_week_days_spec(today),
        1 <= r <= 7,
{
    let d = days_until_next(today, Weekday::Mon);
    if d == 0 {
        7
    } else {
        d
    }
}

/// A 12-hour clock reading of an hour (0-23): the hour and whether it is
/// after noon; out-of-range hours read as midnight.
pub open spec fn twelve_hour(hour: u8) -> (nat, bool) {
    if hour == 0 {
        (12, false)
    } else if hour <= 11 {
        (hour as nat, false)
    } else if hour == 12 {
        (12, true)
    } else if hour <= 23 {
        ((hour - 12) as nat, true)
    } else {
        (12, false)
    }
}

/// The text of an hour, such as "8 AM" or "6 PM".
pub open spec fn hour_text(hour: u8) -> Seq<char> {
    let (h, pm) = twelve_hour(hour);
    decimal(h) + if pm {
        " PM"@
    } else {
        " AM"@
    }
}

/// Format an hour (0-23) as "8 AM" / "6 PM" etc.
pub fn format_hour(hour: u8) -> (s: String)
    ensures
        s@ == hour_text(hour),
{
    let (h12, pm): (u8, bool) = if hour == 0 {
        (12, false)
    } else if hour <= 11 {
        (hour, false)
    } else if hour == 12 {
        (12, true)
    } else if hour <= 23 {
        (hour - 12, true)
    } else {
        (12, false)
    };
    let mut s = decimal_string(h12 as u64);
    push_str(&mut s, if pm { " PM" } else { " AM" });
    s
}

/// Timestamps handled here stay within this distance of the epoch, far
/// beyond the dates `chrono` represents.
pub const TIMESTAMP_BOUND: i64 = 1_000_000_000_000_000;


/// The timestamp that `hour`:00:00 on day `day` would have if the local
/// time zone were UTC.
pub open spec fn naive_seconds(day: int, hour: int) -> int {
    (day - 719_163) * SECS_PER_DAY + hour * 3600
}

/// `chrono`: the local date, in the machine's time zone, of a timestamp,
/// as its day number counted from 0001-01-01 (day 1) and its weekday
/// counted from Monday. The date depends on the time zone; what is stated
/// is what chrono's calendar and its offsets (less than a day either way)
/// give whatever the zone: the weekday of the day number (0001-01-01 is a
/// Monday), and a day at most one away from the UTC date.
#[verifier::external_body]
fn local_date_of(timestamp: i64) -> (r: Option<(i32, u32)>)
    requires
        in_calendar_range(timestamp),
    ensures
        r is Some,
        r matches Some(d) ==> local_reading(timestamp, d),
{
    match chrono::DateTime::from_timestamp(timestamp, 0) {
        Some(utc) => {
            let d = utc.with_timezone(&chrono::Local).date_naive();
            Some((d.num_days_from_ce(), d.weekday().num_days_from_monday()))
        },
        None => None,
    }
}

/// `chrono`: the timestamp of `hour`:00:00 local time on the given day,
/// when that local time exists exactly once in the machine's time zone.
/// The time depends on the time zone; what is stated is that it differs
/// from [`naive_seconds`] by less than a day (chrono's offsets are less
/// than a day either way).
#[verifier::external_body]
fn local_time_at(days_from_ce: i32, hour: u32) -> (r: Option<i64>)
    requires
        hour <= 23,
    ensures
        r matches Some(t) ==> near_local_time(days_from_ce as int, hour as int, t),
{
    let day = chrono::NaiveDate::from_num_days_from_ce_opt(days_from_ce)?;
    let t = day.and_hms_opt(hour, 0, 0)?;
    chrono::Local.from_local_datetime(&t).single().map(|l| l.timestamp())
}

/// A local-date reading `(day, weekday)` for `timestamp`: the weekday is
/// the day number's, and the day is at most one away from the UTC date.
pub open spec fn local_reading(timestamp: i64, d: (i32, u32)) -> bool {
    &&& d.1 < 7
    &&& d.1 == (d.0 - 1) % 7
    &&& utc_day(timestamp) - 1 <= d.0 <= utc_day(timestamp) + 1
}

/// `t` is a local time `hour`:00 on day `day` in some zone.
pub open spec fn near_local_time(day: int, hour: int, t: i64) -> bool {
    naive_seconds(day, hour) - SECS_PER_DAY < t < naive_seconds(day, hour) + SECS_PER_DAY
}

/// The local-date reading a snooze starts from: one for a timestamp in the
/// calendar range, none outside it.
pub open spec fn reading_of(now: i64, reading: Option<(i32, u32)>) -> bool {
    if in_calendar_range(now) {
        reading matches Some(d) && local_reading(now, d)
    } else {
        reading is None
    }
}

/// Read the local date of `now` when it is in the calendar range.
fn local_date_reading(now: i64) -> (r: Option<(i32, u32)>)
    ensures
        reading_of(now, r),
{
    if calendar_range_contains(now) {
        local_date_of(now)
    } else {
        None
    }
}

/// What the local-time lookup gave for `days` days after the reading's day
/// at `hour`: none without a reading; otherwise a time near that local time,
/// or none when the zone has no single such time.
pub open spec fn resolved_of(reading: Option<(i32, u32)>, days: int, hour: int, resolved: Option<i64>) -> bool {
    match reading {
        None => resolved is None,
        Some(d) => resolved matches Some(t) ==> near_local_time(d.0 + days, hour, t),
    }
}

/// The snooze time `days` days after `now` at a resolved local time, or
/// `days` whole days after `now` when the local time could not be
/// resolved.
pub open spec fn offset_pick_spec(now: i64, resolved: Option<i64>, days: u32) -> int {
    match resolved {
        Some(t) => t as int,
        None => now + days * SECS_PER_DAY,
    }
}

/// Pick the snooze time `days` days ahead from the resolved local time.
pub fn offset_pick(now: i64, resolved: Option<i64>, days: u32) -> (r: i64)
    requires
        -TIMESTAMP_BOUND <= now <= TIMESTAMP_BOUND,
        days <= 7,
    ensures
        r == offset_pick_spec(now, resolved, days),
{
    match resolved {
        Some(t) => t,
        None => now + (days as i64) * SECS_PER_DAY,
    }
}

/// "Later today": the evening time when it is still ahead (an unresolved
/// evening counts as now), otherwise the given tomorrow-morning time.
pub open spec fn later_today_spec(now: i64, evening: Option<i64>, tomorrow: i64) -> i64 {
    let target = match evening {
        Some(t) => t,
        None => now,
    };
    if target <= now {
        tomorrow
    } else {
        target
    }
}

/// Pick the "Later today" time.
pub fn later_today_pick(now: i64, evening: Option<i64>, tomorrow: i64) -> (r: i64)
    ensures
        r == later_today_spec(now, evening, tomorrow),
{
    let target = match evening {
        Some(t) => t,
        None => now,
    };
    if target <= now {
        tomorrow
    } else {
        target
    }
}

/// The local time `hour`:00 `days` days after the reading's day.
fn resolve_days_ahead(reading: Option<(i32, u32)>, days: u32, hour: u8) -> (r: Option<i64>)
    requires
        hour <= 23,
        days <= 7,
        reading matches Some(d) ==> d.0 <= i32::MAX - 7,
    ensures
        resolved_of(reading, days as int, hour as int, r),
{
    match reading {
        Some((day, _)) => local_time_at(day + days as i32, hour as u32),
        None => None,
    }
}

/// Which snooze option is picked.
#[derive(Debug, Clone, Copy, PartialEq, Eq, Structural)]
pub enum SnoozeOption {
    /// Tomorrow morning.
    Tomorrow,
    /// The configured weekend day (today if it is that day), morning.
    ThisWeekend,
    /// Next Monday morning (a week ahead on a Monday).
    NextWeek,
}

/// The weekday of a reading's weekday number.
pub open spec fn reading_weekday(w: u32) -> Weekday {
    if w == 0 {
        Weekday::Mon
    } else if w == 1 {
        Weekday::Tue
    } else if w == 2 {
        Weekday::Wed
    } else if w == 3 {
        Weekday::Thu
    } else if w == 4 {
        Weekday::Fri
    } else if w == 5 {
        Weekday::Sat
    } else {
        Weekday::Sun
    }
}

/// How many days ahead an option lands for a local-date reading (without
/// one: tomorrow 1, the weekend today, next week 7).
pub open spec fn request_days(option: SnoozeOption, presets: SnoozePresets, reading: Option<(i32, u32)>) -> int {
    match option {
        SnoozeOption::Tomorrow => 1,
        SnoozeOption::ThisWeekend => match reading {
            Some(d) => days_between(reading_weekday(d.1), preset_weekday(presets.weekend_day)),
            None => 0,
        },
        SnoozeOption::NextWeek => match reading {
            Some(d) => next_week_days_spec(reading_weekday(d.1)),
            None => 7,
        },
    }
}

/// The weekday index (0 = Monday .. 6 = Sunday) a weekend-day preset
/// names; a number past Sunday counts as Sunday.
pub open spec fn preset_index(d: u8) -> int {
    if d <= 6 {
        d as int
    } else {
        6
    }
}

/// Where each option lands, counted from a reading on weekday `w`
/// (0 = Monday): tomorrow is one day ahead; this weekend is 0 to 6 days
/// ahead and falls on the weekday the preset names; next week is 1 to 7
/// days ahead and falls on a Monday. Without a reading, the weekend is
/// today and next week seven days ahead.
pub proof fn law_request_days(presets: SnoozePresets, day: i32, w: u32)
    requires
        w < 7,
    ensures
        request_days(SnoozeOption::Tomorrow, presets, Some((day, w))) == 1,
        0 <= request_days(SnoozeOption::ThisWeekend, presets, Some((day, w))) < 7,
        (w + request_days(SnoozeOption::ThisWeekend, presets, Some((day, w)))) % 7 == preset_index(
            presets.weekend_day,
        ),
        1 <= request_days(SnoozeOption::NextWeek, presets, Some((day, w))) <= 7,
        (w + request_days(SnoozeOption::NextWeek, presets, Some((day, w)))) % 7 == 0,
        request_days(SnoozeOption::ThisWeekend, presets, None) == 0,
        request_days(SnoozeOption::NextWeek, presets, None) == 7,
{
}

/// The days ahead and the local hour a snooze option asks the local-time
/// lookup for: the morning hour, on the day the option names.
pub fn snooze_request(option: SnoozeOption, presets: &SnoozePresets, reading: Option<(i32, u32)>) -> (r: (u32, u8))
    requires
        reading matches Some(d) ==> d.1 < 7,
    ensures
        r.0 == request_days(option, *presets, reading),
        r.1 == presets.morning_hour,
        r.0 <= 7,
{
    let days = match option {
        SnoozeOption::Tomorrow => 1,
        SnoozeOption::ThisWeekend => match reading {
            Some((_, w)) => {
                let today = Weekday::from_days_from_monday(w);
                proof {
                    assert(today == reading_weekday(w));
                }
                days_until_next(today, weekday_from_preset(presets.weekend_day))
            },
            None => 0,
        },
        SnoozeOption::NextWeek => match reading {
            Some((_, w)) => {
                let today = Weekday::from_days_from_monday(w);
                proof {
                    assert(today == reading_weekday(w));
                }
                next_week_days(today)
            },
            None => 7,
        },
    };
    (days, presets.morning_hour)
}

/// The snooze time of an option: the local time its request resolves to,
/// or whole days after `now` when that cannot be resolved.
pub open spec fn snooze_at(
    now: i64,
    option: SnoozeOption,
    presets: SnoozePresets,
    reading: Option<(i32, u32)>,
    resolved: Option<i64>,
    r: int,
) -> bool {
    let days = request_days(option, presets, reading);
    &&& resolved_of(reading, days, presets.morning_hour as int, resolved)
    &&& r == offset_pick_spec(now, resolved, days as u32)
}

/// Snooze time of an option for a local-date reading.
fn snooze_option(now: i64, option: SnoozeOption, presets: &SnoozePresets, reading: Option<(i32, u32)>) -> (r: i64)
    requires
        -TIMESTAMP_BOUND <= now <= TIMESTAMP_BOUND,
        presets.morning_hour <= 23,
        reading_of(now, reading),
    ensures
        exists|resolved: Option<i64>| snooze_at(now, option, *presets, reading, resolved, r as int),
{
    let (days, hour) = snooze_request(option, presets, reading);
    let resolved = resolve_days_ahead(reading, days, hour);
    let r = offset_pick(now, resolved, days);
    assert(snooze_at(now, option, *presets, reading, resolved, r as int));
    r
}

/// Tomorrow at the configured morning hour; a whole day from now when that
/// local time cannot be resolved.
pub fn snooze_tomorrow(now: i64, presets: &SnoozePresets) -> (r: i64)
    requires
        -TIMESTAMP_BOUND <= now <= TIMESTAMP_BOUND,
        presets.morning_hour <= 23,
    ensures
        exists|reading: Option<(i32, u32)>, resolved: Option<i64>|
            reading_of(now, reading) && snooze_at(now, SnoozeOption::Tomorrow, *presets, reading, resolved, r as int),
{
    let reading = local_date_reading(now);
    snooze_option(now, SnoozeOption::Tomorrow, presets, reading)
}

/// Today at the configured evening hour, or tomorrow morning when the
/// evening has already passed.
pub fn snooze_later_today(now: i64, presets: &SnoozePresets) -> (r: i64)
    requires
        -TIMESTAMP_BOUND <= now <= TIMESTAMP_BOUND,
        presets.morning_hour <= 23,
        presets.evening_hour <= 23,
    ensures
        exists|reading: Option<(i32, u32)>, evening: Option<i64>, tomorrow: i64, resolved: Option<i64>|
            reading_of(now, reading) && resolved_of(reading, 0, presets.evening_hour as int, evening)
                && snooze_at(now, SnoozeOption::Tomorrow, *presets, reading, resolved, tomorrow as int)
                && r == later_today_spec(now, evening, tomorrow),
{
    let reading = local_date_reading(now);
    let evening = resolve_days_ahead(reading, 0, presets.evening_hour);
    let tomorrow = snooze_option(now, SnoozeOption::Tomorrow, presets, reading);
    later_today_pick(now, evening, tomorrow)
}

/// The next configured weekend day (today when it is that day) at the
/// morning hour.
pub fn snooze_this_weekend(now: i64, presets: &SnoozePresets) -> (r: i64)
    requires
        -TIMESTAMP_BOUND <= now <= TIMESTAMP_BOUND,
        presets.morning_hour <= 23,
    ensures
        exists|reading: Option<(i32, u32)>, resolved: Option<i64>|
            reading_of(now, reading) && snooze_at(now, SnoozeOption::ThisWeekend, *presets, reading, resolved, r as int),
{
    let reading = local_date_reading(now);
    snooze_option(now, SnoozeOption::ThisWeekend, presets, reading)
}

/// Next Monday at the morning hour (a week ahead on a Monday).
pub fn snooze_next_week(now: i64, presets: &SnoozePresets) -> (r: i64)
    requires
        -TIMESTAMP_BOUND <= now <= TIMESTAMP_BOUND,
        presets.morning_hour <= 23,
    ensures
        exists|reading: Option<(i32, u32)>, resolved: Option<i64>|
            reading_of(now, reading) && snooze_at(now, SnoozeOption::NextWeek, *presets, reading, resolved, r as int),
{
    let reading = local_date_reading(now);
    snooze_option(now, SnoozeOption::NextWeek, presets, reading)
}

} // verus!
