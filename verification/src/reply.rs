//! Composing a reply, reply-all or forward from an original email.
//!
//! The texts themselves (the `Re:`/`Fwd:` subject, the quote block, the
//! trimmed References chain and the reply-all recipient lists) come from
//! the core crate's reply helpers; this module prepares what they are
//! given and puts their results into a fresh compose state.

use vstd::prelude::*;

use crate::app::{new_draft_id, uuid_v4_text};
use crate::compose::{ComposeMode, ComposeSendState, ComposeState, Contact};
use crate::text::owned;

verus! {

/// What composing a reply or forward reads of the original email.
#[derive(Debug, Clone)]
pub struct OriginalEmail {
    pub subject: String,
    /// Sender's display name, if the message had one.
    pub from_name: Option<String>,
    pub from_address: String,
    /// Unix seconds (UTC).
    pub date: i64,
    /// The original's To recipients.
    pub to: Vec<Contact>,
    /// The original's Cc recipients.
    pub cc: Vec<Contact>,
    /// Plain-text body, when it has been downloaded as text.
    pub body_text: Option<String>,
    /// The original's `Message-ID` header.
    pub message_id_header: Option<String>,
    /// The original's `References` header as a stored JSON array.
    pub references_json: Option<String>,
}

/// The text of an optional string, empty when absent.
pub open spec fn text_or_empty(v: Option<String>) -> Seq<char> {
    match v {
        Some(s) => s@,
        None => Seq::empty(),
    }
}

/// The sender of the original as a contact: its name (empty when absent)
/// and address.
pub fn sender_contact(o: &OriginalEmail) -> (c: Contact)
    ensures
        c.name@ == text_or_empty(o.from_name),
        c.address@ == o.from_address@,
{
    let name = match &o.from_name {
        Some(n) => owned(n.as_str()),
        None => String::new(),
    };
    Contact { name, address: owned(o.from_address.as_str()) }
}

/// The plain-text body to quote: empty when the body is not downloaded or
/// came as HTML only.
pub fn extract_body_text(o: &OriginalEmail) -> (r: String)
    ensures
        r@ == text_or_empty(o.body_text),
{
    match &o.body_text {
        Some(b) => owned(b.as_str()),
        None => String::new(),
    }
}

/// The text `chrono` writes for a Unix timestamp in UTC with a format
/// string (`None` when chrono cannot represent the timestamp).
pub uninterp spec fn utc_date_text(timestamp: i64, pattern: Seq<char>) -> Option<Seq<char>>;

/// `chrono::DateTime::from_timestamp(timestamp, 0)` formatted with the
/// quote-attribution pattern or the message-header pattern (their
/// specifiers are all valid, so formatting does not fail); `None` when
/// chrono cannot represent the timestamp.
#[verifier::external_body]
pub(crate) fn format_utc(timestamp: i64, pattern: &str) -> (r: Option<String>)
    requires
        pattern@ == "%a, %-d %b %Y at %H:%M"@ || pattern@ == "%b %-d, %Y at %-I:%M %p"@,
    ensures
        match r {
            Some(s) => utc_date_text(timestamp, pattern@) == Some(s@),
            None => utc_date_text(timestamp, pattern@) is None,
        },
{
    chrono::DateTime::from_timestamp(timestamp, 0).map(|dt| dt.format(pattern).to_string())
}

/// The attribution date of a quote, like `Thu, 7 Apr 2026 at 14:32`
/// (UTC); empty when the timestamp cannot be represented.
pub fn format_email_row_date(timestamp: i64) -> (r: String)
    ensures
        r@ == match utc_date_text(timestamp, "%a, %-d %b %Y at %H:%M"@) {
            Some(t) => t,
            None => Seq::empty(),
        },
{
    match format_utc(timestamp, "%a, %-d %b %Y at %H:%M") {
        Some(s) => s,
        None => String::new(),
    }
}

/// The parent id a reply threads under: the original's `Message-ID` when
/// it is present and not empty.
pub open spec fn parent_id_of(o: OriginalEmail) -> Option<Seq<char>> {
    match o.message_id_header {
        Some(m) => if m@.len() > 0 {
            Some(m@)
        } else {
            None
        },
        None => None,
    }
}

/// The parent id a reply threads under, handed to the References builder.
pub fn reply_parent_id(o: &OriginalEmail) -> (r: Option<String>)
    ensures
        match r {
            Some(s) => parent_id_of(*o) == Some(s@),
            None => parent_id_of(*o) is None,
        },
{
    match &o.message_id_header {
        Some(m) => if m.as_str().is_empty() {
            None
        } else {
            Some(owned(m.as_str()))
        },
        None => None,
    }
}

/// What the core crate's reply helpers produced for the original.
#[derive(Debug, Clone)]
pub struct ReplyTexts {
    /// The subject of the reply or forward.
    pub subject: String,
    /// The quoted original.
    pub quote: String,
    /// The References chain built under the parent id, for a reply to an
    /// original that has one.
    pub references: Option<String>,
    /// Reply-all's To recipients.
    pub reply_all_to: Vec<Contact>,
    /// Reply-all's Cc recipients.
    pub reply_all_cc: Vec<Contact>,
}

/// The fields a fresh compose state keeps whatever the mode.
pub open spec fn untouched_fields(c: ComposeState) -> bool {
    &&& c.bcc@.len() == 0
    &&& c.to_input@.len() == 0
    &&& c.cc_input@.len() == 0
    &&& c.bcc_input@.len() == 0
    &&& !c.show_preview
    &&& c.attachments@.len() == 0
    &&& !c.dirty
    &&& c.save_generation == 0
    &&& c.send_state == ComposeSendState::Idle
    &&& c.attach_picker_counter == 0
    &&& c.explicit_save_counter == 0
}

/// The threading headers of a reply: `In-Reply-To` is the original's
/// `Message-ID`; `References` is the built chain when there is a parent id.
pub open spec fn reply_threading(c: ComposeState, o: OriginalEmail, texts: ReplyTexts) -> bool {
    &&& c.in_reply_to == o.message_id_header
    &&& c.references == if parent_id_of(o) is Some {
        texts.references
    } else {
        None::<String>
    }
}

/// A compose state for replying to (or forwarding) the original, on a fresh
/// draft id, sent from the account at `user_account_index`.
///
/// Reply: To is the original's sender. Reply-all: To and Cc are the
/// helpers' lists, and the Cc/Bcc row opens when Cc is not empty. Both
/// thread under the original. Forward: no recipients and no threading.
/// The body is the quote after two blank lines.
pub fn compose_state_from_original(
    o: &OriginalEmail,
    mode: ComposeMode,
    user_account_index: usize,
    texts: ReplyTexts,
) -> (c: ComposeState)
    requires
        !(mode is New),
    ensures
        c.draft_id matches Some(id) && uuid_v4_text(id@),
        c.from_account_index == user_account_index,
        c.mode == mode,
        c.subject@ == texts.subject@,
        c.body_markdown@ == "\n\n"@ + texts.quote@,
        untouched_fields(c),
        match mode {
            ComposeMode::Reply { .. } => {
                &&& c.to@.len() == 1
                &&& c.to@[0].name@ == text_or_empty(o.from_name)
                &&& c.to@[0].address@ == o.from_address@
                &&& c.cc@.len() == 0
                &&& !c.show_cc_bcc
                &&& reply_threading(c, *o, texts)
            },
            ComposeMode::ReplyAll { .. } => {
                &&& c.to@ == texts.reply_all_to@
                &&& c.cc@ == texts.reply_all_cc@
                &&& c.show_cc_bcc == (texts.reply_all_cc@.len() > 0)
                &&& reply_threading(c, *o, texts)
            },
            _ => {
                &&& c.to@.len() == 0
                &&& c.cc@.len() == 0
                &&& !c.show_cc_bcc
                &&& c.in_reply_to is None
                &&& c.references is None
            },
        },
{
    let mut state = ComposeState::new();
    state.draft_id = Some(new_draft_id());
    state.from_account_index = user_account_index;
    let is_forward = match &mode {
        ComposeMode::Forward { .. } => true,
        _ => false,
    };
    let is_reply_all = match &mode {
        ComposeMode::ReplyAll { .. } => true,
        _ => false,
    };
    state.mode = mode;
    let ReplyTexts { subject, quote, references, reply_all_to, reply_all_cc } = texts;
    state.subject = subject;
    let mut body = owned("\n\n");
    crate::text::push_str(&mut body, quote.as_str());
    state.body_markdown = body;
    if is_forward {
        return state;
    }
    state.in_reply_to = match &o.message_id_header {
        Some(m) => Some(m.clone()),
        None => None,
    };
    let has_parent = match reply_parent_id(o) {
        Some(_) => true,
        None => false,
    };
    if has_parent {
        state.references = references;
    }
    if is_reply_all {
        let show = reply_all_cc.len() > 0;
        state.to = reply_all_to;
        state.cc = reply_all_cc;
        state.show_cc_bcc = show;
    } else {
        let mut to: Vec<Contact> = Vec::new();
        to.push(sender_contact(o));
        state.to = to;
    }
    state
}

} // verus!
