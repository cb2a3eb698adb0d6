//! Inbox feed data model -- date grouping, feed items, and section building.
//!
//! Threads are grouped by temporal proximity (Pinned / Today / Yesterday /
//! This Week / This Month / Earlier), newest first within each group.

use vstd::prelude::*;

use chrono::Datelike;

use crate::clock::{calendar_range_contains, in_calendar_range, utc_day};
use crate::text::owned;

verus! {

/// Date-based grouping for inbox feed sections, in display order.
#[derive(Debug, Clone, Copy, PartialEq, Eq, Hash, PartialOrd, Ord, Structural)]
pub enum DateGroup {
    /// Pinned items -- always at the top, regardless of date.
    Pinned,
    /// Received today (local time).
    Today,
    /// Received yesterday (local time).
    Yesterday,
    /// Received earlier this week (within 7 days, but not today/yesterday).
    ThisWeek,
    /// Received this month (same calendar month, but not this week).
    ThisMonth,
    /// Everything older than this month.
    Earlier,
}

/// Label of a section header.
pub open spec fn group_label(g: DateGroup) -> Seq<char> {
    match g {
        DateGroup::Pinned => "Pinned"@,
        DateGroup::Today => "Today"@,
        DateGroup::Yesterday => "Yesterday"@,
        DateGroup::ThisWeek => "This Week"@,
        DateGroup::ThisMonth => "This Month"@,
        DateGroup::Earlier => "Earlier"@,
    }
}

/// Display position of a group (the order of `<` on groups).
pub open spec fn group_rank(g: DateGroup) -> int {
    match g {
        DateGroup::Pinned => 0,
        DateGroup::Today => 1,
        DateGroup::Yesterday => 2,
        DateGroup::ThisWeek => 3,
        DateGroup::ThisMonth => 4,
        DateGroup::Earlier => 5,
    }
}

/// A calendar day in the user's local time zone.
#[derive(Debug, Clone, Copy, PartialEq, Eq, Structural)]
pub struct LocalDay {
    /// Days since 0001-01-01 (proleptic Gregorian, day 1 is that date).
    pub days: i32,
    /// Calendar year.
    pub year: i32,
    /// Calendar month (1-12).
    pub month: u32,
}

/// The group of a message received on `day`, seen from `today`. A date
/// that cannot be placed on the calendar counts as `Earlier`.
pub open spec fn classify_spec(day: Option<LocalDay>, today: LocalDay) -> DateGroup {
    match day {
        None => DateGroup::Earlier,
        Some(d) => {
            let ago = today.days - d.days;
            if ago == 0 {
                DateGroup::Today
            } else if ago == 1 {
                DateGroup::Yesterday
            } else if 0 < ago <= 7 {
                DateGroup::ThisWeek
            } else if d.year == today.year && d.month == today.month {
                DateGroup::ThisMonth
            } else {
                DateGroup::Earlier
            }
        },
    }
}

/// The groups by age: a message `ago` days before today is in Today at 0
/// days, Yesterday at 1, This Week from 2 to 7; otherwise (older, or dated
/// in the future) it is in This Month exactly when its year and month are
/// today's, and in Earlier when either differs. A date off the calendar is
/// Earlier, and no date is Pinned.
pub proof fn law_classify_groups(day: LocalDay, today: LocalDay)
    ensures
        classify_spec(Some(day), today) == DateGroup::Today <==> day.days == today.days,
        classify_spec(Some(day), today) == DateGroup::Yesterday <==> today.days - day.days == 1,
        classify_spec(Some(day), today) == DateGroup::ThisWeek <==> 2 <= today.days - day.days <= 7,
        classify_spec(Some(day), today) == DateGroup::ThisMonth <==> (!(0 <= today.days - day.days <= 7)
            && day.year == today.year && day.month == today.month),
        classify_spec(Some(day), today) == DateGroup::Earlier <==> (!(0 <= today.days - day.days <= 7) && (
        day.year != today.year || day.month != today.month)),
        classify_spec(Some(day), today) != DateGroup::Pinned,
        classify_spec(None, today) == DateGroup::Earlier,
{
}

/// How a row's timestamp is written.
#[derive(Debug, Clone, Copy, PartialEq, Eq, Structural)]
pub enum TimestampStyle {
    /// Today: 12-hour time, e.g. "2:30 PM".
    Time,
    /// Yesterday: the word "Yesterday".
    Yesterday,
    /// This week: the weekday name, e.g. "Tuesday".
    Weekday,
    /// This year: month and day, e.g. "Mar 12".
    MonthDay,
    /// Older: month, day and year, e.g. "Mar 12, 2025".
    MonthDayYear,
}

/// The timestamp style for a message received on `day`, seen from `today`.
pub open spec fn style_spec(day: Option<LocalDay>, today: LocalDay) -> TimestampStyle {
    match day {
        None => TimestampStyle::MonthDayYear,
        Some(d) => {
            let ago = today.days - d.days;
            if ago == 0 {
                TimestampStyle::Time
            } else if ago == 1 {
                TimestampStyle::Yesterday
            } else if 0 < ago <= 7 {
                TimestampStyle::Weekday
            } else if d.year == today.year {
                TimestampStyle::MonthDay
            } else {
                TimestampStyle::MonthDayYear
            }
        },
    }
}

/// `d` can be the local day of `timestamp` in some time zone: time-zone
/// offsets are less than a day either way, so it is at most one day from
/// the UTC date, and its month is a calendar month.
pub open spec fn day_reading(timestamp: i64, d: LocalDay) -> bool {
    &&& utc_day(timestamp) - 1 <= d.days <= utc_day(timestamp) + 1
    &&& 1 <= d.month <= 12
}

/// `day` is what reading the local day of `timestamp` gives: a day for a
/// timestamp in the calendar range, none outside it.
pub open spec fn day_of(timestamp: i64, day: Option<LocalDay>) -> bool {
    if in_calendar_range(timestamp) {
        day matches Some(d) && day_reading(timestamp, d)
    } else {
        day is None
    }
}

/// The timestamp styles by age: the time on the same day, "Yesterday" one
/// day back, the weekday two to seven days back; otherwise (older, or in
/// the future) month and day within today's year, and month, day and year
/// in any other year or when the date is off the calendar.
pub proof fn law_timestamp_styles(day: LocalDay, today: LocalDay)
    ensures
        style_spec(Some(day), today) == TimestampStyle::Time <==> day.days == today.days,
        style_spec(Some(day), today) == TimestampStyle::Yesterday <==> today.days - day.days == 1,
        style_spec(Some(day), today) == TimestampStyle::Weekday <==> 2 <= today.days - day.days <= 7,
        style_spec(Some(day), today) == TimestampStyle::MonthDay <==> (!(0 <= today.days - day.days <= 7)
            && day.year == today.year),
        style_spec(Some(day), today) == TimestampStyle::MonthDayYear <==> (!(0 <= today.days - day.days
            <= 7) && day.year != today.year),
        style_spec(None, today) == TimestampStyle::MonthDayYear,
{
}

/// The local calendar day of a Unix timestamp (seconds) in the machine's
/// time zone. Inside the calendar range chrono always finds one; which day
/// it is depends on the time zone, so what is stated is what holds in any
/// zone: it is at most one day from the UTC date, in a calendar month.
#[verifier::external_body]
fn local_day_of(timestamp: i64) -> (r: Option<LocalDay>)
    requires
        in_calendar_range(timestamp),
    ensures
        r is Some,
        r matches Some(d) ==> day_reading(timestamp, d),
{
    chrono::DateTime::from_timestamp(timestamp, 0).map(|utc| {
        let d = utc.with_timezone(&chrono::Local).date_naive();
        LocalDay { days: d.num_days_from_ce(), year: d.year(), month: d.month() }
    })
}

/// The local calendar day of a timestamp; none outside the calendar range.
pub(crate) fn calendar_day(timestamp: i64) -> (r: Option<LocalDay>)
    ensures
        day_of(timestamp, r),
        r is None <==> !in_calendar_range(timestamp),
{
    if calendar_range_contains(timestamp) {
        local_day_of(timestamp)
    } else {
        None
    }
}

/// Today's local calendar day; it depends on the clock and time zone.
#[verifier::external_body]
pub(crate) fn local_today() -> LocalDay {
    let d = chrono::Local::now().date_naive();
    LocalDay { days: d.num_days_from_ce(), year: d.year(), month: d.month() }
}

/// English weekday names, counted from Monday (0) to Sunday (6).
pub open spec fn weekday_name(n: int) -> Seq<char> {
    if n == 0 {
        "Monday"@
    } else if n == 1 {
        "Tuesday"@
    } else if n == 2 {
        "Wednesday"@
    } else if n == 3 {
        "Thursday"@
    } else if n == 4 {
        "Friday"@
    } else if n == 5 {
        "Saturday"@
    } else {
        "Sunday"@
    }
}

/// The weekday of a day number, counted from Monday (0001-01-01, day 1,
/// is a Monday).
pub open spec fn weekday_of(days: int) -> int {
    (days - 1) % 7
}

/// Whether a text holds an ASCII digit.
pub open spec fn has_digit(t: Seq<char>) -> bool {
    exists|i: int| 0 <= i < t.len() && '0' <= #[trigger] t[i] <= '9'
}

/// What a row shows in a style for a message on local day `d`: the word
/// "Yesterday"; the day's weekday name; or, for the time and the dates, a
/// text with digits (the hour, the day of the month).
pub open spec fn styled_text(style: TimestampStyle, d: LocalDay, t: Seq<char>) -> bool {
    match style {
        TimestampStyle::Yesterday => t == "Yesterday"@,
        TimestampStyle::Weekday => t == weekday_name(weekday_of(d.days as int)),
        _ => has_digit(t),
    }
}

/// `t` is what the format string `pattern` of a style writes for a
/// message on local day `d`.
pub open spec fn pattern_text(pattern: Seq<char>, d: LocalDay, t: Seq<char>) -> bool {
    forall|style: TimestampStyle| #[trigger] style_pattern_spec(style) == pattern ==> styled_text(style, d, t)
}

/// `t` is what `pattern` writes for `timestamp` on some local day of it.
pub open spec fn local_text(timestamp: i64, pattern: Seq<char>, t: Seq<char>) -> bool {
    exists|d: LocalDay| day_reading(timestamp, d) && #[trigger] pattern_text(pattern, d, t)
}

/// `chrono`'s formatting of a timestamp in the local time zone with one
/// of the timestamp styles' format strings. The local day it formats
/// depends on the time zone; for any zone, `%A` writes the day's English
/// weekday name, the other format strings write the hour or the day of the
/// month in digits, and the word "Yesterday" is written as it stands.
#[verifier::external_body]
fn format_local(timestamp: i64, pattern: &str) -> (r: String)
    requires
        in_calendar_range(timestamp),
        exists|style: TimestampStyle| pattern@ == #[trigger] style_pattern_spec(style),
    ensures
        local_text(timestamp, pattern@, r@),
{
    chrono::DateTime::from_timestamp(timestamp, 0)
        .map(|utc| utc.with_timezone(&chrono::Local).format(pattern).to_string())
        .unwrap_or_default()
}

/// The chrono format string of a timestamp style (`Yesterday` is the word
/// itself).
pub open spec fn style_pattern_spec(style: TimestampStyle) -> Seq<char> {
    match style {
        TimestampStyle::Time => "%-I:%M %p"@,
        TimestampStyle::Yesterday => "Yesterday"@,
        TimestampStyle::Weekday => "%A"@,
        TimestampStyle::MonthDay => "%b %-d"@,
        TimestampStyle::MonthDayYear => "%b %-d, %Y"@,
    }
}

/// The chrono format string of a timestamp style.
pub fn style_pattern(style: TimestampStyle) -> (r: &'static str)
    ensures
        r@ == style_pattern_spec(style),
{
    match style {
        TimestampStyle::Time => "%-I:%M %p",
        TimestampStyle::Yesterday => "Yesterday",
        TimestampStyle::Weekday => "%A",
        TimestampStyle::MonthDay => "%b %-d",
        TimestampStyle::MonthDayYear => "%b %-d, %Y",
    }
}

impl DateGroup {
    /// Classify a message day relative to today.
    pub fn classify(day: Option<LocalDay>, today: LocalDay) -> (g: DateGroup)
        ensures
            g == classify_spec(day, today),
    {
        match day {
            None => DateGroup::Earlier,
            Some(d) => {
                let ago: i64 = today.days as i64 - d.days as i64;
                if ago == 0 {
                    DateGroup::Today
                } else if ago == 1 {
                    DateGroup::Yesterday
                } else if 0 < ago && ago <= 7 {
                    DateGroup::ThisWeek
                } else if d.year == today.year && d.month == today.month {
                    DateGroup::ThisMonth
                } else {
                    DateGroup::Earlier
                }
            },
        }
    }

    /// Classify a thread date (Unix seconds) relative to the current local
    /// time. The group follows [`classify_spec`] for the local days the
    /// clock and time zone give; it is never `Pinned`.
    pub fn from_date(timestamp: i64) -> (g: DateGroup)
        ensures
            g != DateGroup::Pinned,
            !in_calendar_range(timestamp) ==> g == DateGroup::Earlier,
            exists|today: LocalDay, day: Option<LocalDay>|
                day_of(timestamp, day) && g == #[trigger] classify_spec(day, today),
    {
        let today = local_today();
        let day = calendar_day(timestamp);
        Self::classify(day, today)
    }

    /// Display label for the section header.
    pub fn label(&self) -> (r: &'static str)
        ensures
            r@ == group_label(*self),
    {
        match self {
            DateGroup::Pinned => "Pinned",
            DateGroup::Today => "Today",
            DateGroup::Yesterday => "Yesterday",
            DateGroup::ThisWeek => "This Week",
            DateGroup::ThisMonth => "This Month",
            DateGroup::Earlier => "Earlier",
        }
    }

    /// Display position (0 for Pinned up to 5 for Earlier).
    pub fn rank(&self) -> (r: u8)
        ensures
            r as int == group_rank(*self),
    {
        match self {
            DateGroup::Pinned => 0,
            DateGroup::Today => 1,
            DateGroup::Yesterday => 2,
            DateGroup::ThisWeek => 3,
            DateGroup::ThisMonth => 4,
            DateGroup::Earlier => 5,
        }
    }
}

/// The timestamp style for a message day relative to today.
pub fn timestamp_style(day: Option<LocalDay>, today: LocalDay) -> (s: TimestampStyle)
    ensures
        s == style_spec(day, today),
{
    match day {
        None => TimestampStyle::MonthDayYear,
        Some(d) => {
            let ago: i64 = today.days as i64 - d.days as i64;
            if ago == 0 {
                TimestampStyle::Time
            } else if ago == 1 {
                TimestampStyle::Yesterday
            } else if 0 < ago && ago <= 7 {
                TimestampStyle::Weekday
            } else if d.year == today.year {
                TimestampStyle::MonthDay
            } else {
                TimestampStyle::MonthDayYear
            }
        },
    }
}

/// The text a row shows for `timestamp`: for readings of today, of the
/// message's local day and of the day chrono formats (each one day at
/// most from the UTC date), the text of the style [`style_spec`] picks;
/// outside the calendar range, the empty text.
pub open spec fn timestamp_text(timestamp: i64, t: Seq<char>) -> bool {
    if in_calendar_range(timestamp) {
        exists|today: LocalDay, day: LocalDay, shown: LocalDay|
            day_reading(timestamp, day) && day_reading(timestamp, shown) && #[trigger] styled_text(
                style_spec(Some(day), today),
                shown,
                t,
            )
    } else {
        t.len() == 0
    }
}

/// A styled text is never empty, and it reads "Yesterday" exactly in the
/// `Yesterday` style.
pub proof fn lemma_styled_text(style: TimestampStyle, d: LocalDay, t: Seq<char>)
    requires
        styled_text(style, d, t),
    ensures
        t.len() > 0,
        t == "Yesterday"@ <==> style == TimestampStyle::Yesterday,
{
    reveal_strlit("Yesterday");
    reveal_strlit("Monday");
    reveal_strlit("Tuesday");
    reveal_strlit("Wednesday");
    reveal_strlit("Thursday");
    reveal_strlit("Friday");
    reveal_strlit("Saturday");
    reveal_strlit("Sunday");
    let y = "Yesterday"@;
    assert(y[0] == 'Y' && y[1] == 'e' && y[2] == 's' && y[3] == 't' && y[4] == 'e' && y[5] == 'r' && y[6]
        == 'd' && y[7] == 'a' && y[8] == 'y');
    match style {
        TimestampStyle::Yesterday => {},
        TimestampStyle::Weekday => {
            let w = weekday_name(weekday_of(d.days as int));
            assert(w.len() > 0);
            if w.len() == y.len() {
                assert(w[0] != y[0]);
            }
        },
        _ => {
            let i = choose|i: int| 0 <= i < t.len() && '0' <= #[trigger] t[i] <= '9';
            if t == y {
                assert(0 <= i < 9);
                assert(!('0' <= y[i] <= '9'));
            }
        },
    }
}

/// Format a timestamp for display in an email row:
/// today "2:30 PM", yesterday "Yesterday", this week the weekday name,
/// this year "Mar 12", older "Mar 12, 2025". The style is chosen by
/// [`style_spec`] for the local days the clock and time zone give
/// ([`timestamp_text`]). In the calendar range the text is never empty,
/// and it is "Yesterday" exactly when the message's local day is the day
/// before today; outside it the text is empty.
pub fn format_timestamp(timestamp: i64) -> (s: String)
    ensures
        timestamp_text(timestamp, s@),
        !in_calendar_range(timestamp) ==> s@ == Seq::<char>::empty(),
        in_calendar_range(timestamp) ==> s@.len() > 0,
        in_calendar_range(timestamp) ==> exists|today: LocalDay, day: LocalDay|
            day_reading(timestamp, day) && (s@ == "Yesterday"@ <==> #[trigger] style_spec(Some(day), today)
                == TimestampStyle::Yesterday),
{
    if !calendar_range_contains(timestamp) {
        return String::new();
    }
    let today = local_today();
    let day = calendar_day(timestamp);
    let style = timestamp_style(day, today);
    let s = match style {
        TimestampStyle::Yesterday => owned("Yesterday"),
        _ => format_local(timestamp, style_pattern(style)),
    };
    proof {
        let dd = day.unwrap();
        let shown = if style == TimestampStyle::Yesterday {
            dd
        } else {
            choose|d: LocalDay| day_reading(timestamp, d) && #[trigger] pattern_text(style_pattern_spec(style), d, s@)
        };
        if style != TimestampStyle::Yesterday {
            assert(pattern_text(style_pattern_spec(style), shown, s@));
            assert(style_pattern_spec(style) == style_pattern_spec(style));
        }
        assert(styled_text(style_spec(Some(dd), today), shown, s@));
        lemma_styled_text(style_spec(Some(dd), today), shown, s@);
    }
    s
}

/// An inbox thread row as the store returns it.
#[derive(Debug, Clone)]
pub struct InboxThread {
    pub id: String,
    pub sender_name: String,
    pub sender_address: String,
    pub avatar_letter: char,
    pub avatar_color_index: u8,
    pub subject: String,
    pub snippet: String,
    /// Timestamp of the newest email (Unix seconds).
    pub newest_date: i64,
    pub unread_count: u32,
    pub has_attachments: bool,
    pub pinned: bool,
    pub email_count: u32,
}

/// A collapsed bundle as the store summarises it.
#[derive(Debug, Clone)]
pub struct BundleSummary {
    pub bundle_id: String,
    /// Category key (e.g. "social").
    pub category: String,
    pub name: String,
    pub unread_count: u32,
    pub sender_previews: Vec<String>,
    /// Timestamp of the newest email in the bundle (Unix seconds).
    pub newest_date: i64,
}

/// A single displayable row in the inbox feed.
#[derive(Debug, Clone)]
pub struct FeedItem {
    /// Thread ID for navigation and actions.
    pub thread_id: String,
    /// Primary sender's display name (or email if no name).
    pub sender_name: String,
    /// Sender's email address (for block/rule actions).
    pub sender_address: String,
    /// Avatar letter (first letter of name, uppercased).
    pub avatar_letter: char,
    /// Avatar colour index (0-25, maps to A-Z palette).
    pub avatar_color_index: u8,
    /// Thread subject line.
    pub subject: String,
    /// Snippet -- first ~200 chars of newest email body, plaintext.
    pub snippet: String,
    /// Timestamp of newest email in thread (Unix seconds).
    pub timestamp: i64,
    /// Formatted timestamp for display.
    pub timestamp_display: String,
    /// Whether the thread has unread emails.
    pub is_unread: bool,
    /// Whether the thread has attachments.
    pub has_attachments: bool,
    /// Whether the thread is pinned.
    pub is_pinned: bool,
    /// Number of emails in the thread (shown as count badge if > 1).
    pub email_count: u32,
}

/// A single entry in the feed -- either an email thread or a collapsed bundle.
#[derive(Debug, Clone)]
pub enum FeedEntry {
    /// An individual email thread.
    Thread(FeedItem),
    /// A collapsed bundle summary.
    Bundle(BundleSummary),
}

/// Timestamp of an entry's newest email.
pub open spec fn entry_date(e: FeedEntry) -> i64 {
    match e {
        FeedEntry::Thread(item) => item.timestamp,
        FeedEntry::Bundle(summary) => summary.newest_date,
    }
}

impl FeedEntry {
    /// Timestamp for sorting (newest date).
    pub fn newest_date(&self) -> (r: i64)
        ensures
            r == entry_date(*self),
    {
        match self {
            FeedEntry::Thread(item) => item.timestamp,
            FeedEntry::Bundle(summary) => summary.newest_date,
        }
    }
}

/// A section of the feed -- a date group header + its entries.
#[derive(Debug, Clone)]
pub struct FeedSection {
    /// The date group this section represents.
    pub group: DateGroup,
    /// Entries in this section, ordered newest-first.
    pub items: Vec<FeedEntry>,
}

/// `x` placed into `t` after every trailing entry that is at least as new
/// (for a newest-first `t`: after all entries at least as new as `x`).
pub open spec fn insert_by_date(t: Seq<FeedEntry>, x: FeedEntry) -> Seq<FeedEntry>
    decreases t.len(),
{
    if t.len() == 0 {
        seq![x]
    } else if entry_date(t.last()) >= entry_date(x) {
        t.push(x)
    } else {
        insert_by_date(t.drop_last(), x).push(t.last())
    }
}

/// Stable newest-first sort by entry date: entries with equal dates keep
/// their relative order.
pub open spec fn sort_by_date(s: Seq<FeedEntry>) -> Seq<FeedEntry>
    decreases s.len(),
{
    if s.len() == 0 {
        s
    } else {
        insert_by_date(sort_by_date(s.drop_last()), s.last())
    }
}

/// Entries are ordered newest first.
pub open spec fn newest_first(s: Seq<FeedEntry>) -> bool {
    forall|i: int, j: int| 0 <= i < j < s.len() ==> entry_date(s[i]) >= entry_date(s[j])
}

/// The entries classified into group `g`, in input order.
pub open spec fn entries_in(c: Seq<(DateGroup, FeedEntry)>, g: DateGroup) -> Seq<FeedEntry>
    decreases c.len(),
{
    if c.len() == 0 {
        Seq::empty()
    } else if c.last().0 == g {
        entries_in(c.drop_last(), g).push(c.last().1)
    } else {
        entries_in(c.drop_last(), g)
    }
}

/// A section with a group and entries, over sequences.
pub struct SectionModel {
    pub group: DateGroup,
    pub items: Seq<FeedEntry>,
}

pub open spec fn section_model(s: FeedSection) -> SectionModel {
    SectionModel { group: s.group, items: s.items@ }
}

/// The section for `g` when it has entries.
pub open spec fn section_if_any(c: Seq<(DateGroup, FeedEntry)>, g: DateGroup) -> Seq<SectionModel> {
    let items = sort_by_date(entries_in(c, g));
    if items.len() == 0 {
        Seq::empty()
    } else {
        seq![SectionModel { group: g, items }]
    }
}

/// The feed's sections: pinned entries first (in the order given), then
/// Today, Yesterday, This Week, This Month and Earlier, each newest first;
/// empty sections are left out.
pub open spec fn sections_spec(pinned: Seq<FeedEntry>, c: Seq<(DateGroup, FeedEntry)>) -> Seq<SectionModel> {
    (if pinned.len() == 0 {
        Seq::empty()
    } else {
        seq![SectionModel { group: DateGroup::Pinned, items: pinned }]
    }) + section_if_any(c, DateGroup::Today) + section_if_any(c, DateGroup::Yesterday)
        + section_if_any(c, DateGroup::ThisWeek) + section_if_any(c, DateGroup::ThisMonth)
        + section_if_any(c, DateGroup::Earlier)
}

/// Insert an entry into a newest-first list after all entries at least as new.
fn insert_entry(t: &mut Vec<FeedEntry>, x: FeedEntry)
    ensures
        final(t)@ == insert_by_date(old(t)@, x),
{
    let ghost t0 = t@;
    let key = x.newest_date();
    let mut j = t.len();
    assert(t0.subrange(0, j as int) =~= t0);
    assert(t0.subrange(j as int, t0.len() as int) =~= Seq::<FeedEntry>::empty());
    while j > 0 && t[j - 1].newest_date() < key
        invariant
            t@ == t0,
            j <= t0.len(),
            key == entry_date(x),
            insert_by_date(t0, x) == insert_by_date(t0.subrange(0, j as int), x) + t0.subrange(
                j as int,
                t0.len() as int,
            ),
        decreases j,
    {
        proof {
            let u = t0.subrange(0, j as int);
            assert(u.drop_last() =~= t0.subrange(0, j - 1));
            assert(u.last() == t0[j - 1]);
            assert(insert_by_date(u, x) == insert_by_date(t0.subrange(0, j - 1), x).push(t0[j - 1]));
            assert(t0.subrange(j - 1, t0.len() as int) =~= seq![t0[j - 1]] + t0.subrange(
                j as int,
                t0.len() as int,
            ));
            assert(insert_by_date(t0.subrange(0, j - 1), x).push(t0[j - 1]) + t0.subrange(
                j as int,
                t0.len() as int,
            ) =~= insert_by_date(t0.subrange(0, j - 1), x) + t0.subrange(j - 1, t0.len() as int));
        }
        j = j - 1;
    }
    proof {
        let u = t0.subrange(0, j as int);
        if j > 0 {
            assert(u.last() == t0[j - 1]);
            assert(insert_by_date(u, x) == u.push(x));
        } else {
            assert(insert_by_date(u, x) == seq![x]);
        }
        assert(u.push(x) + t0.subrange(j as int, t0.len() as int) =~= t0.insert(j as int, x));
    }
    t.insert(j, x);
}

/// Sort entries newest first, stably.
pub fn sort_entries(v: Vec<FeedEntry>) -> (r: Vec<FeedEntry>)
    ensures
        r@ == sort_by_date(v@),
{
    let mut src = v;
    let n = src.len();
    // Reverse so that popping yields the entries in their original order.
    let mut rev: Vec<FeedEntry> = Vec::new();
    let ghost s0 = src@;
    while src.len() > 0
        invariant
            s0 == src@ + rev@.reverse(),
        decreases src@.len(),
    {
        let ghost before = src@;
        let x = src.pop().unwrap();
        rev.push(x);
        proof {
            assert(before =~= src@.push(x));
            assert(rev@.reverse() =~= seq![x] + rev@.drop_last().reverse());
            assert(src@ + rev@.reverse() =~= src@.push(x) + rev@.drop_last().reverse());
        }
    }
    assert(src@ =~= Seq::<FeedEntry>::empty());
    assert(s0 =~= rev@.reverse());
    let mut out: Vec<FeedEntry> = Vec::new();
    let mut done: usize = 0;
    assert(s0.take(0) =~= Seq::<FeedEntry>::empty());
    while rev.len() > 0
        invariant
            s0 == s0.take(done as int) + rev@.reverse(),
            done + rev@.len() == s0.len(),
            s0.len() == n,
            out@ == sort_by_date(s0.take(done as int)),
        decreases rev@.len(),
    {
        let ghost before = rev@;
        let x = rev.pop().unwrap();
        proof {
            assert(before.reverse() =~= seq![x] + rev@.reverse());
            assert(s0[done as int] == x) by {
                assert(s0 =~= s0.take(done as int) + before.reverse());
            }
            assert(s0.take(done + 1).drop_last() =~= s0.take(done as int));
            assert(s0.take(done + 1).last() == x);
            assert(s0 =~= s0.take(done + 1) + rev@.reverse());
        }
        insert_entry(&mut out, x);
        done = done + 1;
    }
    assert(s0.take(done as int) =~= s0);
    out
}

/// Inserting into a newest-first list keeps it newest first and adds one entry.
pub proof fn lemma_insert_by_date(t: Seq<FeedEntry>, x: FeedEntry)
    requires
        newest_first(t),
    ensures
        newest_first(insert_by_date(t, x)),
        insert_by_date(t, x).len() == t.len() + 1,
        forall|i: int|
            0 <= i < insert_by_date(t, x).len() ==> entry_date(#[trigger] insert_by_date(t, x)[i])
                >= entry_date(x) || exists|k: int| 0 <= k < t.len() && insert_by_date(t, x)[i] == t[k],
        t.len() > 0 ==> entry_date(insert_by_date(t, x).last()) == if entry_date(t.last())
            >= entry_date(x) {
            entry_date(x)
        } else {
            entry_date(t.last())
        },
    decreases t.len(),
{
    if t.len() == 0 {
    } else if entry_date(t.last()) >= entry_date(x) {
        let r = t.push(x);
        assert forall|i: int, j: int| 0 <= i < j < r.len() implies entry_date(r[i]) >= entry_date(
            r[j],
        ) by {
            if j == r.len() - 1 {
                if i < t.len() - 1 {
                    assert(entry_date(t[i]) >= entry_date(t[t.len() - 1]));
                }
            }
        }
        assert forall|i: int|
            0 <= i < r.len() implies entry_date(#[trigger] r[i]) >= entry_date(x) || exists|k: int|
            0 <= k < t.len() && r[i] == t[k] by {
            if i < t.len() {
                assert(r[i] == t[i]);
            }
        }
    } else {
        let t2 = t.drop_last();
        assert forall|i: int, j: int| 0 <= i < j < t2.len() implies entry_date(t2[i]) >= entry_date(
            t2[j],
        ) by {
            assert(t2[i] == t[i] && t2[j] == t[j]);
        }
        lemma_insert_by_date(t2, x);
        let m = insert_by_date(t2, x);
        let r = m.push(t.last());
        assert forall|i: int|
            0 <= i < m.len() implies entry_date(#[trigger] m[i]) >= entry_date(t.last()) by {
            if entry_date(m[i]) < entry_date(x) {
                let k = choose|k: int| 0 <= k < t2.len() && m[i] == t2[k];
                assert(t2[k] == t[k]);
                assert(entry_date(t[k]) >= entry_date(t[t.len() - 1]));
            }
        }
        assert forall|i: int, j: int| 0 <= i < j < r.len() implies entry_date(r[i]) >= entry_date(
            r[j],
        ) by {
            if j == r.len() - 1 {
                assert(r[i] == m[i]);
            } else {
                assert(r[i] == m[i] && r[j] == m[j]);
            }
        }
        assert forall|i: int|
            0 <= i < r.len() implies entry_date(#[trigger] r[i]) >= entry_date(x) || exists|k: int|
            0 <= k < t.len() && r[i] == t[k] by {
            if i < m.len() {
                assert(r[i] == m[i]);
                if entry_date(m[i]) < entry_date(x) {
                    let k = choose|k: int| 0 <= k < t2.len() && m[i] == t2[k];
                    assert(t2[k] == t[k]);
                }
            } else {
                assert(r[i] == t[t.len() - 1]);
            }
        }
    }
}

/// The stable sort yields the entries newest first, and as many as given.
pub proof fn law_sort_newest_first(s: Seq<FeedEntry>)
    ensures
        newest_first(sort_by_date(s)),
        sort_by_date(s).len() == s.len(),
    decreases s.len(),
{
    if s.len() > 0 {
        law_sort_newest_first(s.drop_last());
        lemma_insert_by_date(sort_by_date(s.drop_last()), s.last());
    }
}

/// Distribute classified entries into the five date buckets, keeping
/// their order.
fn bucket_entries(c: Vec<(DateGroup, FeedEntry)>) -> (r: (
    Vec<FeedEntry>,
    Vec<FeedEntry>,
    Vec<FeedEntry>,
    Vec<FeedEntry>,
    Vec<FeedEntry>,
))
    ensures
        r.0@ == entries_in(c@, DateGroup::Today),
        r.1@ == entries_in(c@, DateGroup::Yesterday),
        r.2@ == entries_in(c@, DateGroup::ThisWeek),
        r.3@ == entries_in(c@, DateGroup::ThisMonth),
        r.4@ == entries_in(c@, DateGroup::Earlier),
{
    let mut src = c;
    let n = src.len();
    let ghost s0 = src@;
    let mut rev: Vec<(DateGroup, FeedEntry)> = Vec::new();
    while src.len() > 0
        invariant
            s0 == src@ + rev@.reverse(),
        decreases src@.len(),
    {
        let ghost before = src@;
        let x = src.pop().unwrap();
        rev.push(x);
        proof {
            assert(before =~= src@.push(x));
            assert(rev@.reverse() =~= seq![x] + rev@.drop_last().reverse());
            assert(src@ + rev@.reverse() =~= src@.push(x) + rev@.drop_last().reverse());
        }
    }
    assert(s0 =~= rev@.reverse());
    let mut today: Vec<FeedEntry> = Vec::new();
    let mut yesterday: Vec<FeedEntry> = Vec::new();
    let mut week: Vec<FeedEntry> = Vec::new();
    let mut month: Vec<FeedEntry> = Vec::new();
    let mut earlier: Vec<FeedEntry> = Vec::new();
    let mut done: usize = 0;
    assert(s0.take(0) =~= Seq::<(DateGroup, FeedEntry)>::empty());
    while rev.len() > 0
        invariant
            s0 == s0.take(done as int) + rev@.reverse(),
            done + rev@.len() == s0.len(),
            s0.len() == n,
            today@ == entries_in(s0.take(done as int), DateGroup::Today),
            yesterday@ == entries_in(s0.take(done as int), DateGroup::Yesterday),
            week@ == entries_in(s0.take(done as int), DateGroup::ThisWeek),
            month@ == entries_in(s0.take(done as int), DateGroup::ThisMonth),
            earlier@ == entries_in(s0.take(done as int), DateGroup::Earlier),
        decreases rev@.len(),
    {
        let ghost before = rev@;
        let x = rev.pop().unwrap();
        proof {
            assert(before.reverse() =~= seq![x] + rev@.reverse());
            assert(s0[done as int] == x) by {
                assert(s0 =~= s0.take(done as int) + before.reverse());
            }
            assert(s0.take(done + 1).drop_last() =~= s0.take(done as int));
            assert(s0.take(done + 1).last() == x);
            assert(s0 =~= s0.take(done + 1) + rev@.reverse());
        }
        let (g, e) = x;
        match g {
            DateGroup::Today => today.push(e),
            DateGroup::Yesterday => yesterday.push(e),
            DateGroup::ThisWeek => week.push(e),
            DateGroup::ThisMonth => month.push(e),
            DateGroup::Earlier => earlier.push(e),
            DateGroup::Pinned => {},
        }
        done = done + 1;
    }
    assert(s0.take(done as int) =~= s0);
    (today, yesterday, week, month, earlier)
}

/// Append the section for `g` when it has entries.
fn push_section(out: &mut Vec<FeedSection>, g: DateGroup, items: Vec<FeedEntry>)
    ensures
        final(out)@.map_values(|s: FeedSection| section_model(s)) == old(out)@.map_values(
            |s: FeedSection| section_model(s),
        ) + (if sort_by_date(items@).len() == 0 {
            Seq::<SectionModel>::empty()
        } else {
            seq![SectionModel { group: g, items: sort_by_date(items@) }]
        }),
{
    let sorted = sort_entries(items);
    if sorted.len() > 0 {
        out.push(FeedSection { group: g, items: sorted });
    }
    proof {
        assert(final(out)@.map_values(|s: FeedSection| section_model(s)) =~= old(out)@.map_values(
            |s: FeedSection| section_model(s),
        ) + (if sort_by_date(items@).len() == 0 {
            Seq::<SectionModel>::empty()
        } else {
            seq![SectionModel { group: g, items: sort_by_date(items@) }]
        }));
    }
}

/// Assemble the feed sections from the pinned entries (kept in the order
/// given) and the date-classified entries (entries classified `Pinned`
/// are ignored).
pub fn group_feed(pinned: Vec<FeedEntry>, classified: Vec<(DateGroup, FeedEntry)>) -> (r: Vec<
    FeedSection,
>)
    ensures
        r@.map_values(|s: FeedSection| section_model(s)) == sections_spec(pinned@, classified@),
{
    let ghost c = classified@;
    let ghost p = pinned@;
    let (today, yesterday, week, month, earlier) = bucket_entries(classified);
    let mut out: Vec<FeedSection> = Vec::new();
    if pinned.len() > 0 {
        out.push(FeedSection { group: DateGroup::Pinned, items: pinned });
    }
    assert(out@.map_values(|s: FeedSection| section_model(s)) =~= (if p.len() == 0 {
        Seq::<SectionModel>::empty()
    } else {
        seq![SectionModel { group: DateGroup::Pinned, items: p }]
    }));
    push_section(&mut out, DateGroup::Today, today);
    push_section(&mut out, DateGroup::Yesterday, yesterday);
    push_section(&mut out, DateGroup::ThisWeek, week);
    push_section(&mut out, DateGroup::ThisMonth, month);
    push_section(&mut out, DateGroup::Earlier, earlier);
    out
}

/// The feed row for a thread, given its formatted timestamp.
pub open spec fn item_of(t: InboxThread, display: String) -> FeedItem {
    FeedItem {
        thread_id: t.id,
        sender_address: t.sender_address,
        sender_name: if t.sender_name@.len() == 0 {
            t.sender_address
        } else {
            t.sender_name
        },
        avatar_letter: t.avatar_letter,
        avatar_color_index: t.avatar_color_index,
        subject: t.subject,
        snippet: t.snippet,
        timestamp: t.newest_date,
        timestamp_display: display,
        is_unread: t.unread_count > 0,
        has_attachments: t.has_attachments,
        is_pinned: t.pinned,
        email_count: t.email_count,
    }
}

/// The feed row for a thread.
pub fn feed_item(t: InboxThread, display: String) -> (r: FeedItem)
    ensures
        r == item_of(t, display),
{
    let sender_name = if t.sender_name.as_str().is_empty() {
        t.sender_address.clone()
    } else {
        t.sender_name
    };
    FeedItem {
        thread_id: t.id,
        sender_address: t.sender_address,
        sender_name,
        avatar_letter: t.avatar_letter,
        avatar_color_index: t.avatar_color_index,
        subject: t.subject,
        snippet: t.snippet,
        timestamp: t.newest_date,
        timestamp_display: display,
        is_unread: t.unread_count > 0,
        has_attachments: t.has_attachments,
        is_pinned: t.pinned,
        email_count: t.email_count,
    }
}

/// A feed's sections are non-empty, in strictly increasing group order
/// (so no group appears twice), and every dated section is newest first.
pub open spec fn feed_well_formed(secs: Seq<SectionModel>) -> bool {
    &&& forall|i: int| 0 <= i < secs.len() ==> (#[trigger] secs[i]).items.len() > 0
    &&& forall|i: int, j: int|
        0 <= i < j < secs.len() ==> group_rank(secs[i].group) < group_rank(secs[j].group)
    &&& forall|i: int|
        0 <= i < secs.len() && (#[trigger] secs[i]).group != DateGroup::Pinned ==> newest_first(
            secs[i].items,
        )
}

proof fn lemma_append_section(prefix: Seq<SectionModel>, c: Seq<(DateGroup, FeedEntry)>, g: DateGroup)
    requires
        feed_well_formed(prefix),
        forall|i: int| 0 <= i < prefix.len() ==> group_rank((#[trigger] prefix[i]).group) < group_rank(g),
        g != DateGroup::Pinned,
    ensures
        feed_well_formed(prefix + section_if_any(c, g)),
        forall|i: int|
            0 <= i < (prefix + section_if_any(c, g)).len() ==> group_rank(
                (#[trigger] (prefix + section_if_any(c, g))[i]).group,
            ) <= group_rank(g),
{
    law_sort_newest_first(entries_in(c, g));
    let r = prefix + section_if_any(c, g);
    assert forall|i: int| 0 <= i < r.len() implies (#[trigger] r[i]).items.len() > 0 by {
        if i < prefix.len() {
            assert(r[i] == prefix[i]);
        }
    }
    assert forall|i: int, j: int| 0 <= i < j < r.len() implies group_rank(r[i].group) < group_rank(
        r[j].group,
    ) by {
        assert(r[i] == prefix[i]);
        if j < prefix.len() {
            assert(r[j] == prefix[j]);
        }
    }
    assert forall|i: int|
        0 <= i < r.len() && (#[trigger] r[i]).group != DateGroup::Pinned implies newest_first(
        r[i].items,
    ) by {
        if i < prefix.len() {
            assert(r[i] == prefix[i]);
        }
    }
    assert forall|i: int| 0 <= i < r.len() implies group_rank((#[trigger] r[i]).group) <= group_rank(g) by {
        if i < prefix.len() {
            assert(r[i] == prefix[i]);
        }
    }
}

/// Every feed the sections are built from is well formed: pinned first,
/// then the dated groups in order, none empty, each newest first.
pub proof fn law_sections_well_formed(pinned: Seq<FeedEntry>, c: Seq<(DateGroup, FeedEntry)>)
    ensures
        feed_well_formed(sections_spec(pinned, c)),
{
    let p0: Seq<SectionModel> = if pinned.len() == 0 {
        Seq::empty()
    } else {
        seq![SectionModel { group: DateGroup::Pinned, items: pinned }]
    };
    lemma_append_section(p0, c, DateGroup::Today);
    let p1 = p0 + section_if_any(c, DateGroup::Today);
    lemma_append_section(p1, c, DateGroup::Yesterday);
    let p2 = p1 + section_if_any(c, DateGroup::Yesterday);
    lemma_append_section(p2, c, DateGroup::ThisWeek);
    let p3 = p2 + section_if_any(c, DateGroup::ThisWeek);
    lemma_append_section(p3, c, DateGroup::ThisMonth);
    let p4 = p3 + section_if_any(c, DateGroup::ThisMonth);
    lemma_append_section(p4, c, DateGroup::Earlier);
}

/// The elements of a vector in reverse order (popping the result yields
/// them in their original order).
pub fn into_reversed<T>(v: Vec<T>) -> (r: Vec<T>)
    ensures
        r@ == v@.reverse(),
{
    let mut src = v;
    let ghost s0 = src@;
    let mut rev: Vec<T> = Vec::new();
    while src.len() > 0
        invariant
            s0 == src@ + rev@.reverse(),
        decreases src@.len(),
    {
        let ghost before = src@;
        let x = src.pop().unwrap();
        rev.push(x);
        proof {
            assert(before =~= src@.push(x));
            assert(rev@.reverse() =~= seq![x] + rev@.drop_last().reverse());
            assert(src@ + rev@.reverse() =~= src@.push(x) + rev@.drop_last().reverse());
        }
    }
    assert(s0 =~= rev@.reverse());
    assert(rev@ =~= s0.reverse());
    rev
}

/// The pinned threads' rows, in store order, each with its timestamp text.
pub open spec fn pinned_rows(threads: Seq<InboxThread>, displays: Seq<String>) -> Seq<FeedEntry>
    decreases threads.len(),
{
    if threads.len() == 0 {
        Seq::empty()
    } else {
        let prev = pinned_rows(threads.drop_last(), displays.drop_last());
        if threads.last().pinned {
            prev.push(FeedEntry::Thread(item_of(threads.last(), displays.last())))
        } else {
            prev
        }
    }
}

/// The unpinned threads' rows in store order, each with the group of its
/// local day.
pub open spec fn dated_rows(
    threads: Seq<InboxThread>,
    displays: Seq<String>,
    days: Seq<Option<LocalDay>>,
    today: LocalDay,
) -> Seq<(DateGroup, FeedEntry)>
    decreases threads.len(),
{
    if threads.len() == 0 {
        Seq::empty()
    } else {
        let prev = dated_rows(threads.drop_last(), displays.drop_last(), days.drop_last(), today);
        if threads.last().pinned {
            prev
        } else {
            prev.push(
                (classify_spec(days.last(), today), FeedEntry::Thread(item_of(threads.last(), displays.last()))),
            )
        }
    }
}

/// The bundles in store order, each with the group of its local day.
pub open spec fn bundle_rows(bundles: Seq<BundleSummary>, days: Seq<Option<LocalDay>>, today: LocalDay) -> Seq<
    (DateGroup, FeedEntry),
> {
    Seq::new(bundles.len(), |i: int| (classify_spec(days[i], today), FeedEntry::Bundle(bundles[i])))
}

/// The feed of the store's rows for given readings of the local calendar:
/// today, each thread's and bundle's local day, and each thread's
/// timestamp text.
pub open spec fn feed_for(
    threads: Seq<InboxThread>,
    bundles: Seq<BundleSummary>,
    today: LocalDay,
    thread_days: Seq<Option<LocalDay>>,
    bundle_days: Seq<Option<LocalDay>>,
    displays: Seq<String>,
) -> Seq<SectionModel> {
    sections_spec(
        pinned_rows(threads, displays),
        dated_rows(threads, displays, thread_days, today) + bundle_rows(bundles, bundle_days, today),
    )
}

/// The readings behind a feed fit the rows: one local day per thread and
/// per bundle, each what reading its timestamp gives ([`day_of`]), and one
/// timestamp text per thread ([`timestamp_text`]).
pub open spec fn readings_fit(
    threads: Seq<InboxThread>,
    bundles: Seq<BundleSummary>,
    thread_days: Seq<Option<LocalDay>>,
    bundle_days: Seq<Option<LocalDay>>,
    displays: Seq<String>,
) -> bool {
    &&& thread_days.len() == threads.len()
    &&& displays.len() == threads.len()
    &&& bundle_days.len() == bundles.len()
    &&& forall|i: int|
        0 <= i < threads.len() ==> day_of(threads[i].newest_date, #[trigger] thread_days[i])
            && timestamp_text(threads[i].newest_date, displays[i]@)
    &&& forall|j: int| 0 <= j < bundles.len() ==> day_of(bundles[j].newest_date, #[trigger] bundle_days[j])
}

/// Build the feed sections from the store's inbox threads and bundle
/// summaries: pinned threads first in store order, then unpinned threads
/// and bundles by local date group, newest first. The groups and
/// timestamp texts follow the local calendar the clock and time zone give;
/// for whatever readings they give, the feed is [`feed_for`] them, and it
/// is well formed.
#[verifier::spinoff_prover]
pub fn build_feed(threads: Vec<InboxThread>, bundles: Vec<BundleSummary>) -> (r: Vec<FeedSection>)
    ensures
        exists|
            today: LocalDay,
            thread_days: Seq<Option<LocalDay>>,
            bundle_days: Seq<Option<LocalDay>>,
            displays: Seq<String>,
        |
            readings_fit(threads@, bundles@, thread_days, bundle_days, displays) && r@.map_values(
                |s: FeedSection| section_model(s),
            ) == feed_for(threads@, bundles@, today, thread_days, bundle_days, displays),
        feed_well_formed(r@.map_values(|s: FeedSection| section_model(s))),
{
    let today = local_today();
    let ghost all_t = threads@;
    let ghost n = all_t.len();
    let mut pinned: Vec<FeedEntry> = Vec::new();
    let mut classified: Vec<(DateGroup, FeedEntry)> = Vec::new();
    let ghost mut tdays: Seq<Option<LocalDay>> = Seq::empty();
    let ghost mut displays: Seq<String> = Seq::empty();
    let mut ts = into_reversed(threads);
    proof {
        assert(ts@ =~= all_t.subrange(0, n as int).reverse());
    }
    while ts.len() > 0
        invariant
            n == all_t.len(),
            ts@.len() <= n,
            ts@ =~= all_t.subrange(n - ts@.len(), n as int).reverse(),
            tdays.len() == n - ts@.len(),
            displays.len() == n - ts@.len(),
            pinned@ == pinned_rows(all_t.take(n - ts@.len()), displays),
            classified@ == dated_rows(all_t.take(n - ts@.len()), displays, tdays, today),
            forall|i: int|
                0 <= i < tdays.len() ==> day_of(all_t[i].newest_date, #[trigger] tdays[i])
                    && timestamp_text(all_t[i].newest_date, displays[i]@),
        decreases ts@.len(),
    {
        let ghost k = n - ts@.len();
        let ghost before = ts@;
        let t = ts.pop().unwrap();
        proof {
            assert(before.last() == all_t[k]);
            assert(ts@ =~= all_t.subrange(k + 1, n as int).reverse());
        }
        let ghost tg = t;
        let display = format_timestamp(t.newest_date);
        let day = calendar_day(t.newest_date);
        let is_pinned = t.pinned;
        let ghost display_g = display;
        let item = feed_item(t, display);
        if is_pinned {
            pinned.push(FeedEntry::Thread(item));
        } else {
            let g = DateGroup::classify(day, today);
            classified.push((g, FeedEntry::Thread(item)));
        }
        proof {
            let k1 = all_t.take(k + 1);
            assert(k1.drop_last() =~= all_t.take(k));
            assert(k1.last() == tg);
            let old_days = tdays;
            let old_disp = displays;
            tdays = tdays.push(day);
            displays = displays.push(display_g);
            assert(tdays.drop_last() =~= old_days);
            assert(displays.drop_last() =~= old_disp);
            assert forall|i: int| 0 <= i < tdays.len() implies day_of(all_t[i].newest_date, #[trigger] tdays[i])
                && timestamp_text(all_t[i].newest_date, displays[i]@) by {
                if i < k {
                    assert(tdays[i] == old_days[i]);
                    assert(displays[i] == old_disp[i]);
                } else {
                    assert(all_t[i] == tg);
                }
            }
            assert(item == item_of(tg, display_g));
            assert(pinned_rows(k1, displays) == (if tg.pinned {
                pinned_rows(all_t.take(k), old_disp).push(FeedEntry::Thread(item_of(tg, display_g)))
            } else {
                pinned_rows(all_t.take(k), old_disp)
            }));
            assert(dated_rows(k1, displays, tdays, today) == (if tg.pinned {
                dated_rows(all_t.take(k), old_disp, old_days, today)
            } else {
                dated_rows(all_t.take(k), old_disp, old_days, today).push(
                    (classify_spec(day, today), FeedEntry::Thread(item_of(tg, display_g))),
                )
            }));
        }
    }
    let ghost all_b = bundles@;
    let ghost m = all_b.len();
    let ghost dated = classified@;
    let ghost mut bdays: Seq<Option<LocalDay>> = Seq::empty();
    let mut bs = into_reversed(bundles);
    proof {
        assert(bs@ =~= all_b.subrange(0, m as int).reverse());
        assert(all_t.take(n as int) =~= all_t);
        assert(bundle_rows(all_b.take(0), bdays, today) =~= Seq::<(DateGroup, FeedEntry)>::empty());
        assert(classified@ =~= dated + bundle_rows(all_b.take(0), bdays, today));
    }
    while bs.len() > 0
        invariant
            m == all_b.len(),
            bs@.len() <= m,
            bs@ =~= all_b.subrange(m - bs@.len(), m as int).reverse(),
            bdays.len() == m - bs@.len(),
            classified@ == dated + bundle_rows(all_b.take(m - bs@.len()), bdays, today),
            forall|j: int| 0 <= j < bdays.len() ==> day_of(all_b[j].newest_date, #[trigger] bdays[j]),
        decreases bs@.len(),
    {
        let ghost j = m - bs@.len();
        let ghost before = bs@;
        let b = bs.pop().unwrap();
        proof {
            assert(before.last() == all_b[j]);
            assert(bs@ =~= all_b.subrange(j + 1, m as int).reverse());
        }
        let ghost bg = b;
        let day = calendar_day(b.newest_date);
        let g = DateGroup::classify(day, today);
        let ghost old_c = classified@;
        classified.push((g, FeedEntry::Bundle(b)));
        proof {
            let nb = bdays.push(day);
            assert(bundle_rows(all_b.take(j + 1), nb, today) =~= bundle_rows(all_b.take(j), bdays, today).push(
                (classify_spec(day, today), FeedEntry::Bundle(bg)),
            ));
            assert forall|i: int| 0 <= i < nb.len() implies day_of(all_b[i].newest_date, #[trigger] nb[i]) by {
                if i < j {
                    assert(nb[i] == bdays[i]);
                } else {
                    assert(all_b[i] == bg);
                }
            }
            bdays = nb;
            assert(classified@ =~= dated + bundle_rows(all_b.take(j + 1), bdays, today));
        }
    }
    let ghost p = pinned@;
    let ghost c = classified@;
    let r = group_feed(pinned, classified);
    proof {
        law_sections_well_formed(p, c);
        assert(all_b.take(m as int) =~= all_b);
        assert(r@.map_values(|s: FeedSection| section_model(s)) == feed_for(
            all_t,
            all_b,
            today,
            tdays,
            bdays,
            displays,
        ));
        assert(tdays.len() == all_t.len());
        assert(bdays.len() == all_b.len());
        assert(readings_fit(all_t, all_b, tdays, bdays, displays));
    }
    r
}

} // verus!
