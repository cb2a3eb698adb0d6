use chrono::{Datelike, Duration, TimeZone, Utc};

use inboxly_ui::clock::{CALENDAR_MAX, CALENDAR_MIN};
use inboxly_ui::feed::{
    BundleSummary, DateGroup, FeedEntry, FeedItem, InboxThread, LocalDay, TimestampStyle,
    build_feed, feed_item, format_timestamp, group_feed, into_reversed, sort_entries,
    timestamp_style,
};

fn thread(id: &str, date: i64, pinned: bool) -> InboxThread {
    InboxThread {
        id: id.to_string(),
        sender_name: String::new(),
        sender_address: format!("{id}@example.com"),
        avatar_letter: 'A',
        avatar_color_index: 0,
        subject: format!("subject {id}"),
        snippet: String::new(),
        newest_date: date,
        unread_count: 1,
        has_attachments: false,
        pinned,
        email_count: 1,
    }
}

fn entry(id: &str, date: i64) -> FeedEntry {
    FeedEntry::Thread(feed_item(thread(id, date, false), String::new()))
}

fn entry_id(e: &FeedEntry) -> String {
    match e {
        FeedEntry::Thread(item) => item.thread_id.clone(),
        FeedEntry::Bundle(b) => b.bundle_id.clone(),
    }
}

#[test]
fn today_classification() {
    let now = Utc::now().timestamp();
    assert_eq!(DateGroup::from_date(now), DateGroup::Today);
}

#[test]
fn yesterday_classification() {
    let yesterday = (Utc::now() - Duration::days(1)).timestamp();
    assert_eq!(DateGroup::from_date(yesterday), DateGroup::Yesterday);
}

#[test]
fn this_week_classification() {
    let five_days_ago = (Utc::now() - Duration::days(5)).timestamp();
    assert_eq!(DateGroup::from_date(five_days_ago), DateGroup::ThisWeek);
}

#[test]
fn earlier_classification() {
    let old = Utc.with_ymd_and_hms(2020, 1, 1, 0, 0, 0).unwrap().timestamp();
    assert_eq!(DateGroup::from_date(old), DateGroup::Earlier);
}

#[test]
fn date_group_labels() {
    assert_eq!(DateGroup::Pinned.label(), "Pinned");
    assert_eq!(DateGroup::Today.label(), "Today");
    assert_eq!(DateGroup::Yesterday.label(), "Yesterday");
    assert_eq!(DateGroup::ThisWeek.label(), "This Week");
    assert_eq!(DateGroup::ThisMonth.label(), "This Month");
    assert_eq!(DateGroup::Earlier.label(), "Earlier");
}

#[test]
fn date_group_ordering() {
    assert!(DateGroup::Pinned < DateGroup::Today);
    assert!(DateGroup::Today < DateGroup::Yesterday);
    assert!(DateGroup::Yesterday < DateGroup::ThisWeek);
    assert!(DateGroup::ThisWeek < DateGroup::ThisMonth);
    assert!(DateGroup::ThisMonth < DateGroup::Earlier);
}

#[test]
fn format_timestamp_today_shows_time() {
    let formatted = format_timestamp(Utc::now().timestamp());
    assert!(
        formatted.contains("AM") || formatted.contains("PM"),
        "today's timestamp should be time-only, got: {formatted}"
    );
}

#[test]
fn format_timestamp_yesterday_shows_yesterday() {
    let yesterday = (Utc::now() - Duration::days(1)).timestamp();
    assert_eq!(format_timestamp(yesterday), "Yesterday");
}

#[test]
fn format_timestamp_this_week_shows_weekday() {
    let five_days_ago = (Utc::now() - Duration::days(5)).timestamp();
    let formatted = format_timestamp(five_days_ago);
    let weekdays = ["Monday", "Tuesday", "Wednesday", "Thursday", "Friday", "Saturday", "Sunday"];
    assert!(
        weekdays.iter().any(|d| formatted == *d),
        "5 days ago should be a weekday name, got: {formatted}"
    );
}

#[test]
fn format_timestamp_old_includes_year() {
    let old = Utc.with_ymd_and_hms(2020, 6, 15, 12, 0, 0).unwrap().timestamp();
    assert_eq!(format_timestamp(old), "Jun 15, 2020");
}

#[test]
fn build_feed_empty_store() {
    let sections = build_feed(Vec::new(), Vec::new());
    assert!(sections.is_empty());
}

#[test]
fn classify_by_local_days() {
    let today = LocalDay { days: 1000, year: 2026, month: 4 };
    let day = |days: i32, month: u32| Some(LocalDay { days, year: 2026, month });
    assert_eq!(DateGroup::classify(day(1000, 4), today), DateGroup::Today);
    assert_eq!(DateGroup::classify(day(999, 4), today), DateGroup::Yesterday);
    assert_eq!(DateGroup::classify(day(993, 4), today), DateGroup::ThisWeek);
    assert_eq!(DateGroup::classify(day(992, 4), today), DateGroup::ThisMonth);
    assert_eq!(DateGroup::classify(day(992, 3), today), DateGroup::Earlier);
    assert_eq!(DateGroup::classify(day(1001, 4), today), DateGroup::ThisMonth);
    assert_eq!(DateGroup::classify(None, today), DateGroup::Earlier);
}

#[test]
fn timestamp_styles_by_local_days() {
    let today = LocalDay { days: 1000, year: 2026, month: 4 };
    assert_eq!(timestamp_style(Some(today), today), TimestampStyle::Time);
    assert_eq!(
        timestamp_style(Some(LocalDay { days: 999, year: 2026, month: 4 }), today),
        TimestampStyle::Yesterday
    );
    assert_eq!(
        timestamp_style(Some(LocalDay { days: 995, year: 2026, month: 4 }), today),
        TimestampStyle::Weekday
    );
    assert_eq!(
        timestamp_style(Some(LocalDay { days: 900, year: 2026, month: 1 }), today),
        TimestampStyle::MonthDay
    );
    assert_eq!(
        timestamp_style(Some(LocalDay { days: 600, year: 2025, month: 3 }), today),
        TimestampStyle::MonthDayYear
    );
    assert_eq!(timestamp_style(None, today), TimestampStyle::MonthDayYear);
}

#[test]
fn sort_entries_is_newest_first_and_stable() {
    let sorted = sort_entries(vec![entry("a", 10), entry("b", 30), entry("c", 10), entry("d", 20)]);
    let ids: Vec<String> = sorted.iter().map(entry_id).collect();
    assert_eq!(ids, vec!["b", "d", "a", "c"]);
}

#[test]
fn group_feed_orders_sections_and_drops_empty_groups() {
    let pinned = vec![entry("p1", 5), entry("p2", 50)];
    let classified = vec![
        (DateGroup::Earlier, entry("e1", 1)),
        (DateGroup::Today, entry("t1", 100)),
        (DateGroup::Pinned, entry("ignored", 7)),
        (DateGroup::Today, entry("t2", 200)),
    ];
    let sections = group_feed(pinned, classified);
    let groups: Vec<DateGroup> = sections.iter().map(|s| s.group).collect();
    assert_eq!(groups, vec![DateGroup::Pinned, DateGroup::Today, DateGroup::Earlier]);
    let pinned_ids: Vec<String> = sections[0].items.iter().map(entry_id).collect();
    assert_eq!(pinned_ids, vec!["p1", "p2"]);
    let today_ids: Vec<String> = sections[1].items.iter().map(entry_id).collect();
    assert_eq!(today_ids, vec!["t2", "t1"]);
}

#[test]
fn build_feed_puts_pinned_first_and_bundles_by_date() {
    let now = Utc::now().timestamp();
    let old = Utc.with_ymd_and_hms(2020, 1, 1, 12, 0, 0).unwrap().timestamp();
    let bundle = BundleSummary {
        bundle_id: "b1".to_string(),
        category: "social".to_string(),
        name: "Social".to_string(),
        unread_count: 2,
        sender_previews: vec!["Ann".to_string()],
        newest_date: now,
    };
    let sections = build_feed(
        vec![thread("old", old, false), thread("pin", old, true), thread("new", now - 60, false)],
        vec![bundle],
    );
    assert_eq!(sections[0].group, DateGroup::Pinned);
    assert_eq!(entry_id(&sections[0].items[0]), "pin");
    assert_eq!(sections[1].group, DateGroup::Today);
    let today_ids: Vec<String> = sections[1].items.iter().map(entry_id).collect();
    assert_eq!(today_ids, vec!["b1", "new"]);
    assert_eq!(sections.last().unwrap().group, DateGroup::Earlier);
}

#[test]
fn feed_item_falls_back_to_address_and_flags_unread() {
    let mut t = thread("x", 5, true);
    t.unread_count = 0;
    let item: FeedItem = feed_item(t, "Yesterday".to_string());
    assert_eq!(item.sender_name, "x@example.com");
    assert!(!item.is_unread);
    assert!(item.is_pinned);
    assert_eq!(item.timestamp_display, "Yesterday");
    assert_eq!(FeedEntry::Thread(item).newest_date(), 5);
}

#[test]
fn into_reversed_reverses() {
    assert_eq!(into_reversed(vec![1, 2, 3]), vec![3, 2, 1]);
}

#[test]
fn unrepresentable_timestamps_are_earlier_and_unlabelled() {
    assert_eq!(format_timestamp(i64::MAX), "");
    assert_eq!(format_timestamp(i64::MIN), "");
    assert_eq!(DateGroup::from_date(i64::MAX), DateGroup::Earlier);
    assert_eq!(DateGroup::from_date(i64::MIN), DateGroup::Earlier);
}

#[test]
fn timestamp_text_is_never_empty_inside_the_calendar() {
    let now = Utc::now().timestamp();
    for days_ago in 0..40i64 {
        let ts = now - days_ago * 86_400;
        let text = format_timestamp(ts);
        assert!(!text.is_empty());
        let style = timestamp_style(calendar_day_for_test(ts), calendar_day_for_test(now).unwrap());
        assert_eq!(text == "Yesterday", style == TimestampStyle::Yesterday);
    }
}

fn calendar_day_for_test(ts: i64) -> Option<LocalDay> {
    let d = Utc.timestamp_opt(ts, 0).single()?.with_timezone(&chrono::Local).date_naive();
    Some(LocalDay { days: d.num_days_from_ce(), year: d.year(), month: d.month() })
}

#[test]
fn calendar_edges_are_formatted_and_just_beyond_them_left_empty() {
    assert!(!format_timestamp(CALENDAR_MAX).is_empty());
    assert!(!format_timestamp(CALENDAR_MIN).is_empty());
    assert_eq!(format_timestamp(CALENDAR_MAX + 1), "");
    assert_eq!(format_timestamp(CALENDAR_MIN - 1), "");
    assert_eq!(DateGroup::from_date(CALENDAR_MAX), DateGroup::Earlier);
    assert_eq!(DateGroup::from_date(CALENDAR_MIN), DateGroup::Earlier);
}
