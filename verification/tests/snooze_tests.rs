use chrono::{DateTime, Local, TimeZone, Utc};

use inboxly_ui::config::SnoozePresets;
use inboxly_ui::snooze::{
    SnoozeOption, Weekday, snooze_request, days_until_next, format_hour, later_today_pick, next_week_days, offset_pick,
    snooze_later_today, snooze_next_week, snooze_this_weekend, snooze_tomorrow,
    weekday_from_preset,
};

fn fixed_presets() -> SnoozePresets {
    SnoozePresets { morning_hour: 8, afternoon_hour: 13, evening_hour: 18, weekend_day: 5 }
}

fn local_at(y: i32, m: u32, d: u32, h: u32, mi: u32) -> DateTime<Local> {
    Local.with_ymd_and_hms(y, m, d, h, mi, 0).single().unwrap()
}

#[test]
fn later_today_uses_evening_hour() {
    let now = local_at(2026, 4, 6, 10, 0);
    let result = snooze_later_today(now.timestamp(), &fixed_presets());
    let expected = local_at(2026, 4, 6, 18, 0).with_timezone(&Utc);
    assert_eq!(result, expected.timestamp());
}

#[test]
fn later_today_past_evening_falls_through_to_tomorrow() {
    let now = local_at(2026, 4, 6, 20, 0);
    let result = snooze_later_today(now.timestamp(), &fixed_presets());
    let expected = local_at(2026, 4, 7, 8, 0).with_timezone(&Utc);
    assert_eq!(result, expected.timestamp());
}

#[test]
fn tomorrow_uses_morning_hour() {
    let now = local_at(2026, 4, 6, 14, 30);
    let result = snooze_tomorrow(now.timestamp(), &fixed_presets());
    let expected = local_at(2026, 4, 7, 8, 0).with_timezone(&Utc);
    assert_eq!(result, expected.timestamp());
}

#[test]
fn this_weekend_from_monday_is_saturday() {
    let now = local_at(2026, 4, 6, 10, 0);
    let result = snooze_this_weekend(now.timestamp(), &fixed_presets());
    let expected = local_at(2026, 4, 11, 8, 0).with_timezone(&Utc);
    assert_eq!(result, expected.timestamp());
}

#[test]
fn this_weekend_from_saturday_is_same_day() {
    let now = local_at(2026, 4, 11, 10, 0);
    let result = snooze_this_weekend(now.timestamp(), &fixed_presets());
    let expected = local_at(2026, 4, 11, 8, 0).with_timezone(&Utc);
    assert_eq!(result, expected.timestamp());
}

#[test]
fn next_week_from_monday_is_next_monday() {
    let now = local_at(2026, 4, 6, 10, 0);
    let result = snooze_next_week(now.timestamp(), &fixed_presets());
    let expected = local_at(2026, 4, 13, 8, 0).with_timezone(&Utc);
    assert_eq!(result, expected.timestamp());
}

#[test]
fn next_week_from_friday_is_following_monday() {
    let now = local_at(2026, 4, 10, 10, 0);
    let result = snooze_next_week(now.timestamp(), &fixed_presets());
    let expected = local_at(2026, 4, 13, 8, 0).with_timezone(&Utc);
    assert_eq!(result, expected.timestamp());
}

#[test]
fn days_until_next_wraps_around_week() {
    assert_eq!(days_until_next(Weekday::Mon, Weekday::Mon), 0);
    assert_eq!(days_until_next(Weekday::Mon, Weekday::Fri), 4);
    assert_eq!(days_until_next(Weekday::Fri, Weekday::Mon), 3);
    assert_eq!(days_until_next(Weekday::Sun, Weekday::Mon), 1);
}

#[test]
fn format_hour_am_pm() {
    assert_eq!(format_hour(0), "12 AM");
    assert_eq!(format_hour(8), "8 AM");
    assert_eq!(format_hour(12), "12 PM");
    assert_eq!(format_hour(13), "1 PM");
    assert_eq!(format_hour(23), "11 PM");
}

#[test]
fn format_hour_out_of_range_reads_as_midnight() {
    assert_eq!(format_hour(24), "12 AM");
    assert_eq!(format_hour(11), "11 AM");
}

#[test]
fn weekday_presets_map_monday_first() {
    assert_eq!(weekday_from_preset(0), Weekday::Mon);
    assert_eq!(weekday_from_preset(5), Weekday::Sat);
    assert_eq!(weekday_from_preset(6), Weekday::Sun);
    assert_eq!(weekday_from_preset(200), Weekday::Sun);
}

#[test]
fn next_week_days_skips_a_full_week_on_monday() {
    assert_eq!(next_week_days(Weekday::Mon), 7);
    assert_eq!(next_week_days(Weekday::Tue), 6);
    assert_eq!(next_week_days(Weekday::Sun), 1);
}

#[test]
fn picks_fall_back_when_local_time_is_unresolved() {
    assert_eq!(offset_pick(1000, None, 2), 1000 + 2 * 86400);
    assert_eq!(offset_pick(1000, Some(5), 2), 5);
    assert_eq!(later_today_pick(100, Some(200), 999), 200);
    assert_eq!(later_today_pick(100, Some(100), 999), 999);
    assert_eq!(later_today_pick(100, None, 999), 999);
}

#[test]
fn snooze_requests_name_the_day_and_morning_hour() {
    let p = fixed_presets();
    // Day 1 is a Monday (weekday 0); the weekend preset 5 is Saturday.
    let monday = Some((1, 0));
    assert_eq!(snooze_request(SnoozeOption::Tomorrow, &p, monday), (1, 8));
    assert_eq!(snooze_request(SnoozeOption::ThisWeekend, &p, monday), (5, 8));
    assert_eq!(snooze_request(SnoozeOption::NextWeek, &p, monday), (7, 8));
    let saturday = Some((6, 5));
    assert_eq!(snooze_request(SnoozeOption::ThisWeekend, &p, saturday), (0, 8));
    assert_eq!(snooze_request(SnoozeOption::NextWeek, &p, saturday), (2, 8));
    assert_eq!(snooze_request(SnoozeOption::ThisWeekend, &p, None), (0, 8));
    assert_eq!(snooze_request(SnoozeOption::NextWeek, &p, None), (7, 8));
}

#[test]
fn snooze_outside_the_calendar_falls_back_to_whole_days() {
    let p = fixed_presets();
    let far = 9_000_000_000_000i64;
    assert_eq!(snooze_tomorrow(far, &p), far + 86_400);
    assert_eq!(snooze_next_week(far, &p), far + 7 * 86_400);
    assert_eq!(snooze_this_weekend(far, &p), far);
}

#[test]
fn snooze_at_the_calendar_edges_does_not_fail() {
    let p = fixed_presets();
    let edge = inboxly_ui::clock::CALENDAR_MAX;
    assert!(snooze_tomorrow(edge, &p) > edge);
    assert!(snooze_next_week(edge, &p) > edge);
    assert!(snooze_this_weekend(edge, &p) >= edge - 86_400);
    let low = inboxly_ui::clock::CALENDAR_MIN;
    assert!(snooze_tomorrow(low, &p) > low);
}
