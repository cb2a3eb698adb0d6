//! The thread shown in the detail view: per-thread metadata and every
//! message with its content.
//!
//! A thread comes from the store when one is attached; otherwise, or while
//! it loads, or when loading failed, one of the placeholders below stands in.

use std::sync::Arc;

use vstd::prelude::*;

use crate::clock::unix_now;
use crate::reply::{format_utc, utc_date_text};
use crate::sanitize::{sanitize_html, sanitized};
use crate::text::{chars_of, owned, push_str, str_eq};

verus! {

/// What the store records of an attachment.
#[derive(Debug, Clone, PartialEq, Eq)]
pub struct AttachmentMeta {
    pub filename: String,
    pub mime_type: String,
    pub size_bytes: u64,
}

/// All data needed to render the thread detail view.
#[derive(Debug, Clone, PartialEq)]
pub struct LoadedThread {
    pub thread_id: String,
    pub subject: String,
    pub messages: Vec<Arc<LoadedMessage>>,
    /// Set when the load failed; shown in a banner above the messages.
    pub error_message: Option<String>,
}

/// One message inside a loaded thread.
#[derive(Debug, Clone, PartialEq)]
pub struct LoadedMessage {
    pub email_id: String,
    pub from_name: String,
    pub from_address: String,
    /// Unix seconds (UTC); `None` when the stored timestamp could not be
    /// read, so that corrupt data is not shown as a fresh email.
    pub date: Option<i64>,
    pub body_text: Option<String>,
    pub body_html: Option<String>,
    pub attachments: Vec<AttachmentMeta>,
}

/// A thread with the given id, subject and error, and no messages.
pub open spec fn placeholder(t: LoadedThread, id: Seq<char>, subject: Seq<char>) -> bool {
    &&& t.thread_id@ == id
    &&& t.subject@ == subject
    &&& t.messages@.len() == 0
}

/// Placeholder shown when there is no data for the thread; it carries no
/// error, since nothing failed.
pub fn empty_thread(thread_id: &str) -> (t: LoadedThread)
    ensures
        placeholder(t, thread_id@, "(no content available)"@),
        t.error_message is None,
{
    LoadedThread {
        thread_id: owned(thread_id),
        subject: owned("(no content available)"),
        messages: Vec::new(),
        error_message: None,
    }
}

/// A thread that stands for a failed load, with the failure's message.
pub fn error_thread(thread_id: &str, message: &str) -> (t: LoadedThread)
    ensures
        placeholder(t, thread_id@, "(failed to load)"@),
        t.error_message matches Some(m) && m@ == message@,
{
    LoadedThread {
        thread_id: owned(thread_id),
        subject: owned("(failed to load)"),
        messages: Vec::new(),
        error_message: Some(owned(message)),
    }
}

/// Placeholder shown while the thread loads.
pub fn loading_thread(thread_id: &str) -> (t: LoadedThread)
    ensures
        placeholder(t, thread_id@, "(loading\u{2026})"@),
        t.error_message is None,
{
    LoadedThread {
        thread_id: owned(thread_id),
        subject: owned("(loading\u{2026})"),
        messages: Vec::new(),
        error_message: None,
    }
}

/// The moment `secs` seconds before `now`, where it fits in an `i64`.
pub open spec fn seconds_before(now: i64, secs: i64) -> Option<i64> {
    if now - secs >= i64::MIN {
        Some((now - secs) as i64)
    } else {
        None
    }
}

fn checked_before(now: i64, secs: i64) -> (r: Option<i64>)
    requires
        secs >= 0,
    ensures
        r == seconds_before(now, secs),
{
    if now >= i64::MIN + secs {
        Some(now - secs)
    } else {
        None
    }
}

/// The HTML body of the first demo message.
pub open spec fn demo_html() -> Seq<char> {
    "<p>Hi there,</p><p>This is a <strong>demo</strong> message rendered from the M34 thread detail view. The body is sanitised HTML.</p><p>More info: <a href=\"https://example.com\">example.com</a> (clicking should open in your default browser, not navigate the app)</p><p>Cheers,<br>Alan</p>"@
}

/// The plain-text body of the second demo message.
pub open spec fn demo_text() -> Seq<char> {
    "Reply with a plain-text body.\n\nNo HTML, no formatting.\n\nLine three."@
}

/// A fixture thread of two messages for trying the detail view by hand:
/// an HTML message with a link and an attachment, sent two hours ago, and
/// a plain-text one sent fifteen minutes ago.
pub fn demo_thread(thread_id: &str) -> (t: LoadedThread)
    ensures
        t.thread_id@ == thread_id@,
        t.subject@ == "Welcome to Inboxly"@,
        t.error_message is None,
        t.messages@.len() == 2,
        t.messages@[0].email_id@ == thread_id@ + "-1"@,
        t.messages@[0].from_name@ == "Alan Gaudet"@,
        t.messages@[0].from_address@ == "alan@example.com"@,
        t.messages@[0].body_html matches Some(h) && h@ == demo_html(),
        t.messages@[0].body_text is None,
        t.messages@[0].attachments@.len() == 1,
        t.messages@[0].attachments@[0].filename@ == "report.pdf"@,
        t.messages@[0].attachments@[0].mime_type@ == "application/pdf"@,
        t.messages@[0].attachments@[0].size_bytes == 124_532,
        t.messages@[1].email_id@ == thread_id@ + "-2"@,
        t.messages@[1].from_name@ == "Test Sender"@,
        t.messages@[1].from_address@ == "test@example.com"@,
        t.messages@[1].body_html is None,
        t.messages@[1].body_text matches Some(b) && b@ == demo_text(),
        t.messages@[1].attachments@.len() == 0,
        exists|now: i64|
            t.messages@[0].date == seconds_before(now, 7200) && t.messages@[1].date
                == seconds_before(now, 900),
{
    let now = unix_now();
    let mut id1 = owned(thread_id);
    push_str(&mut id1, "-1");
    let mut id2 = owned(thread_id);
    push_str(&mut id2, "-2");
    let first = LoadedMessage {
        email_id: id1,
        from_name: owned("Alan Gaudet"),
        from_address: owned("alan@example.com"),
        date: checked_before(now, 7200),
        body_html: Some(owned("<p>Hi there,</p><p>This is a <strong>demo</strong> message rendered from the M34 thread detail view. The body is sanitised HTML.</p><p>More info: <a href=\"https://example.com\">example.com</a> (clicking should open in your default browser, not navigate the app)</p><p>Cheers,<br>Alan</p>")),
        body_text: None,
        attachments: vec![
            AttachmentMeta {
                filename: owned("report.pdf"),
                mime_type: owned("application/pdf"),
                size_bytes: 124_532,
            },
        ],
    };
    let second = LoadedMessage {
        email_id: id2,
        from_name: owned("Test Sender"),
        from_address: owned("test@example.com"),
        date: checked_before(now, 900),
        body_html: None,
        body_text: Some(owned("Reply with a plain-text body.\n\nNo HTML, no formatting.\n\nLine three.")),
        attachments: Vec::new(),
    };
    let messages = vec![Arc::new(first), Arc::new(second)];
    LoadedThread {
        thread_id: owned(thread_id),
        subject: owned("Welcome to Inboxly"),
        messages,
        error_message: None,
    }
}

/// ASCII uppercase of one character.
pub open spec fn upper(c: char) -> char {
    if 'a' <= c && c <= 'z' {
        ((c as u32 - 32) as u8) as char
    } else {
        c
    }
}

/// The avatar letter of a message: the first character of the sender's
/// name, upper-cased (ASCII), or `?` when the name is empty.
pub open spec fn avatar_letter_spec(name: Seq<char>) -> char {
    if name.len() == 0 {
        '?'
    } else {
        upper(name[0])
    }
}

/// The avatar letter shown beside a message.
pub fn message_avatar_letter(from_name: &str) -> (c: char)
    ensures
        c == avatar_letter_spec(from_name@),
{
    let v = chars_of(from_name);
    if v.len() == 0 {
        '?'
    } else {
        let c = v[0];
        if 'a' <= c && c <= 'z' {
            ((c as u32 - 32) as u8) as char
        } else {
            c
        }
    }
}

/// How a message body is shown.
#[derive(Debug, Clone, PartialEq, Eq)]
pub enum MessageBody {
    /// The sanitised HTML body.
    Html(String),
    /// The plain-text body, shown preformatted.
    Plain(String),
    /// Neither body: the placeholder "(no content)".
    NoContent,
}

/// The body a message shows: its sanitised HTML when it has one, else its
/// plain text, else the placeholder.
pub fn message_body(m: &LoadedMessage) -> (b: MessageBody)
    ensures
        match m.body_html {
            Some(h) => b matches MessageBody::Html(s) && s@ == sanitized(h@),
            None => match m.body_text {
                Some(t) => b matches MessageBody::Plain(s) && s@ == t@,
                None => b is NoContent,
            },
        },
{
    match (&m.body_html, &m.body_text) {
        (Some(html), _) => MessageBody::Html(sanitize_html(html.as_str())),
        (None, Some(text)) => MessageBody::Plain(owned(text.as_str())),
        (None, None) => MessageBody::NoContent,
    }
}

/// The date line of a message: chrono's UTC text of its timestamp like
/// `Mar 12, 2025 at 2:30 PM`, or "(unknown time)" when the store holds no
/// readable date.
pub open spec fn message_date_spec(date: Option<i64>) -> Seq<char> {
    match date {
        Some(t) => match utc_date_text(t, "%b %-d, %Y at %-I:%M %p"@) {
            Some(text) => text,
            None => "(unknown time)"@,
        },
        None => "(unknown time)"@,
    }
}

/// The date line shown in a message header.
pub fn message_date_display(date: Option<i64>) -> (r: String)
    ensures
        r@ == message_date_spec(date),
{
    match date {
        Some(t) => match format_utc(t, "%b %-d, %Y at %-I:%M %p") {
            Some(s) => s,
            None => owned("(unknown time)"),
        },
        None => owned("(unknown time)"),
    }
}

/// What loading a thread from the store gave.
#[derive(Debug, Clone)]
pub enum ThreadLoad {
    /// The thread view was built.
    Built(LoadedThread),
    /// The emails loaded but the view could not be built; the failure's text.
    BuildFailed(String),
    /// The emails could not be loaded; the failure's text.
    LoadFailed(String),
    /// No store is attached: the placeholder thread stands in.
    NoReader(LoadedThread),
}

/// The banner text of a failed load.
pub open spec fn load_failure_text(load: ThreadLoad) -> Option<Seq<char>> {
    match load {
        ThreadLoad::BuildFailed(e) => Some("Failed to build thread view: "@ + e@),
        ThreadLoad::LoadFailed(e) => Some("Failed to load thread: "@ + e@),
        _ => None,
    }
}

/// The thread a load shows: the built thread or the placeholder as they
/// came; for a failure, an error thread whose banner names what failed.
pub fn thread_for_load(thread_id: &str, load: ThreadLoad) -> (t: LoadedThread)
    ensures
        match load {
            ThreadLoad::Built(b) => t == b,
            ThreadLoad::NoReader(p) => t == p,
            _ => {
                &&& placeholder(t, thread_id@, "(failed to load)"@)
                &&& t.error_message matches Some(m) && Some(m@) == load_failure_text(load)
            },
        },
{
    match load {
        ThreadLoad::Built(b) => b,
        ThreadLoad::NoReader(p) => p,
        ThreadLoad::BuildFailed(e) => {
            let mut m = owned("Failed to build thread view: ");
            push_str(&mut m, e.as_str());
            error_thread(thread_id, m.as_str())
        },
        ThreadLoad::LoadFailed(e) => {
            let mut m = owned("Failed to load thread: ");
            push_str(&mut m, e.as_str());
            error_thread(thread_id, m.as_str())
        },
    }
}

/// A finished load is shown only while its thread is still the open one;
/// a load for a thread the user has left is dropped.
pub fn load_is_current(open_thread_id: &Option<String>, thread_id: &str) -> (r: bool)
    ensures
        r == (open_thread_id matches Some(o) && o@ == thread_id@),
{
    match open_thread_id {
        Some(o) => str_eq(o.as_str(), thread_id),
        None => false,
    }
}

} // verus!
