//! In-progress compose draft state and the small helpers around it.
//!
//! The lifecycle is driven by the compose messages of the application
//! state machine: opening a compose view starts a fresh state with a new
//! draft id; every field change marks the draft dirty and bumps its save
//! generation; a successful send moves to `Sent { dismiss_pending: true }`
//! until the user dismisses the notice.

use vstd::prelude::*;

use crate::account_id::AccountId;
use crate::clock::unix_now;
use crate::json::{json_string_array, parse_string_array, texts};
use crate::text::{chars_of, decimal, is_ws, lemma_trim_nonempty, owned, str_eq, push_char, push_str, string_from_chars, trim_chars, trim_spec};

verus! {

/// A resolved email contact.
#[derive(Debug, PartialEq, Eq)]
pub struct Contact {
    /// Display name (may be empty).
    pub name: String,
    /// Email address.
    pub address: String,
}

impl Contact {
    /// A contact with the given display name and address.
    pub fn new(name: &str, address: &str) -> (c: Contact)
        ensures
            c.name@ == name@,
            c.address@ == address@,
    {
        Contact { name: owned(name), address: owned(address) }
    }
}

/// A file the user attached to a draft.
#[derive(Debug, PartialEq, Eq)]
pub struct AttachmentDraft {
    /// File name shown on the chip.
    pub filename: String,
    /// MIME type inferred from the file name.
    pub mime_type: String,
    /// Size in bytes.
    pub size_bytes: u64,
    /// Where the attachment's bytes are kept.
    pub path: String,
}

/// What kind of message is being composed; replies and forwards carry the
/// id of the original message.
#[derive(Debug, PartialEq, Eq)]
pub enum ComposeMode {
    New,
    Reply { original_id: String },
    ReplyAll { original_id: String },
    Forward { original_id: String },
}

impl Clone for Contact {
    fn clone(&self) -> (r: Self)
        ensures
            r == *self,
    {
        Contact { name: self.name.clone(), address: self.address.clone() }
    }
}

impl Clone for AttachmentDraft {
    fn clone(&self) -> (r: Self)
        ensures
            r == *self,
    {
        AttachmentDraft {
            filename: self.filename.clone(),
            mime_type: self.mime_type.clone(),
            size_bytes: self.size_bytes,
            path: self.path.clone(),
        }
    }
}

impl Clone for ComposeMode {
    fn clone(&self) -> (r: Self)
        ensures
            r == *self,
    {
        match self {
            ComposeMode::New => ComposeMode::New,
            ComposeMode::Reply { original_id } => ComposeMode::Reply { original_id: original_id.clone() },
            ComposeMode::ReplyAll { original_id } => ComposeMode::ReplyAll {
                original_id: original_id.clone(),
            },
            ComposeMode::Forward { original_id } => ComposeMode::Forward {
                original_id: original_id.clone(),
            },
        }
    }
}

/// Two-phase commit state for the send pipeline.
#[derive(Debug, Clone, PartialEq, Eq)]
pub enum ComposeSendState {
    /// No send in progress.
    Idle,
    /// Send is in flight; field-change handlers must not mutate state.
    Sending,
    /// Send succeeded; waiting for the user to dismiss the "Sent" overlay.
    Sent {
        /// True until the user clicks the dismiss button.
        dismiss_pending: bool,
    },
    /// Send failed; the error message is shown to the user.
    Failed {
        /// Human-readable failure reason.
        error: String,
    },
}

impl Default for ComposeSendState {
    fn default() -> (s: Self)
        ensures
            s == ComposeSendState::Idle,
    {
        ComposeSendState::Idle
    }
}

/// State backing the compose view.
#[derive(Debug, Clone)]
pub struct ComposeState {
    /// Id of the in-progress draft, set when compose opens.
    pub draft_id: Option<String>,
    /// Subject line of the draft.
    pub subject: String,
    /// Index into the configured accounts of the FROM account.
    pub from_account_index: usize,
    /// Resolved To recipients.
    pub to: Vec<Contact>,
    /// Resolved Cc recipients.
    pub cc: Vec<Contact>,
    /// Resolved Bcc recipients.
    pub bcc: Vec<Contact>,
    /// Current text in the To input field.
    pub to_input: String,
    /// Current text in the Cc input field.
    pub cc_input: String,
    /// Current text in the Bcc input field.
    pub bcc_input: String,
    /// Whether the Cc/Bcc rows are visible.
    pub show_cc_bcc: bool,
    /// The Markdown source the user is editing.
    pub body_markdown: String,
    /// Toggle between body textarea and rendered Markdown preview.
    pub show_preview: bool,
    /// Files the user has attached so far.
    pub attachments: Vec<AttachmentDraft>,
    /// Compose mode.
    pub mode: ComposeMode,
    /// `In-Reply-To` header value for replies.
    pub in_reply_to: Option<String>,
    /// `References` header value for replies.
    pub references: Option<String>,
    /// Set by any field change; cleared by an auto-save whose snapshot
    /// generation still matches.
    pub dirty: bool,
    /// Incremented (wrapping) on every field change.
    pub save_generation: u64,
    /// Current send pipeline state.
    pub send_state: ComposeSendState,
    /// Bumped (wrapping) when the attach button is pressed.
    pub attach_picker_counter: u64,
    /// Bumped (wrapping) when an explicit draft save is requested.
    pub explicit_save_counter: u64,
}

/// A compose state with no draft and every field at its default.
pub open spec fn is_blank(c: ComposeState) -> bool {
    &&& c.draft_id is None
    &&& c.subject@.len() == 0
    &&& c.from_account_index == 0
    &&& c.to@.len() == 0
    &&& c.cc@.len() == 0
    &&& c.bcc@.len() == 0
    &&& c.to_input@.len() == 0
    &&& c.cc_input@.len() == 0
    &&& c.bcc_input@.len() == 0
    &&& !c.show_cc_bcc
    &&& c.body_markdown@.len() == 0
    &&& !c.show_preview
    &&& c.attachments@.len() == 0
    &&& c.mode == ComposeMode::New
    &&& c.in_reply_to is None
    &&& c.references is None
    &&& !c.dirty
    &&& c.save_generation == 0
    &&& c.send_state == ComposeSendState::Idle
    &&& c.attach_picker_counter == 0
    &&& c.explicit_save_counter == 0
}

/// Whether a draft has what sending needs: a To recipient, a subject that
/// is not only whitespace, and no send under way or finished.
pub open spec fn can_send_spec(c: ComposeState) -> bool {
    c.to@.len() > 0 && trim_spec(c.subject@).len() > 0 && c.send_state == ComposeSendState::Idle
}

/// A draft can be sent exactly when it has a To recipient, its subject
/// holds a character that is not whitespace, and no send is under way,
/// finished or failed: in the `Sending`, `Sent` and `Failed` states Send
/// stays off.
pub proof fn law_can_send(c: ComposeState)
    ensures
        can_send_spec(c) <==> (c.to@.len() > 0 && (exists|i: int|
            0 <= i < c.subject@.len() && !is_ws(#[trigger] c.subject@[i])) && c.send_state is Idle),
        c.send_state is Sending ==> !can_send_spec(c),
        c.send_state is Sent ==> !can_send_spec(c),
        c.send_state is Failed ==> !can_send_spec(c),
{
    lemma_trim_nonempty(c.subject@);
}

impl ComposeState {
    /// Create empty compose state (no active draft, all defaults).
    pub fn new() -> (c: Self)
        ensures
            is_blank(c),
    {
        ComposeState {
            draft_id: None,
            subject: String::new(),
            from_account_index: 0,
            to: Vec::new(),
            cc: Vec::new(),
            bcc: Vec::new(),
            to_input: String::new(),
            cc_input: String::new(),
            bcc_input: String::new(),
            show_cc_bcc: false,
            body_markdown: String::new(),
            show_preview: false,
            attachments: Vec::new(),
            mode: ComposeMode::New,
            in_reply_to: None,
            references: None,
            dirty: false,
            save_generation: 0,
            send_state: ComposeSendState::Idle,
            attach_picker_counter: 0,
            explicit_save_counter: 0,
        }
    }

    /// Bump the save generation and mark the draft dirty.
    pub fn mark_dirty(&mut self)
        ensures
            final(self).dirty,
            final(self).save_generation == old(self).save_generation.wrapping_add(1),
            *final(self) == (ComposeState {
                dirty: true,
                save_generation: old(self).save_generation.wrapping_add(1),
                ..*old(self)
            }),
    {
        self.dirty = true;
        self.save_generation = self.save_generation.wrapping_add(1);
    }

    /// True if the form has the minimum data needed to send.
    pub fn can_send(&self) -> (r: bool)
        ensures
            r == can_send_spec(*self),
    {
        let subject = chars_of(self.subject.as_str());
        let trimmed = trim_chars(subject.as_slice());
        let idle = match self.send_state {
            ComposeSendState::Idle => true,
            _ => false,
        };
        self.to.len() > 0 && trimmed.len() > 0 && idle
    }
}

impl Default for ComposeState {
    fn default() -> (c: Self)
        ensures
            is_blank(c),
    {
        Self::new()
    }
}

/// Characters of a draft subject shown on the toolbar chip before it is
/// cut short with an ellipsis.
pub const DRAFT_CHIP_SUBJECT_MAX_CHARS: usize = 30;

/// The toolbar chip text for a draft subject: a placeholder for a blank
/// subject, otherwise the trimmed subject, cut to 30 characters with an
/// ellipsis when longer.
pub open spec fn chip_label(subject: Seq<char>) -> Seq<char> {
    let t = trim_spec(subject);
    if t.len() == 0 {
        "Draft: (no subject)"@
    } else if t.len() <= 30 {
        "Draft: "@ + t
    } else {
        "Draft: "@ + t.take(30) + seq!['\u{2026}']
    }
}

/// Format the draft chip label for the toolbar indicator.
pub fn format_draft_chip_label(subject: &str) -> (r: String)
    ensures
        r@ == chip_label(subject@),
{
    let chars = chars_of(subject);
    let t = trim_chars(chars.as_slice());
    if t.len() == 0 {
        return owned("Draft: (no subject)");
    }
    let mut r = owned("Draft: ");
    if t.len() <= DRAFT_CHIP_SUBJECT_MAX_CHARS {
        push_str(&mut r, string_from_chars(t.as_slice()).as_str());
        r
    } else {
        let mut i: usize = 0;
        let ghost start = r@;
        while i < DRAFT_CHIP_SUBJECT_MAX_CHARS
            invariant
                i <= 30 < t@.len(),
                r@ == start + t@.take(i as int),
            decreases 30 - i,
        {
            push_char(&mut r, t[i]);
            i = i + 1;
            assert(r@ =~= start + t@.take(i as int));
        }
        push_char(&mut r, '\u{2026}');
        assert(r@ =~= chip_label(subject@));
        r
    }
}

/// The extension `std::path::Path::extension` finds in a file name, as text.
pub uninterp spec fn path_extension(filename: Seq<char>) -> Option<Seq<char>>;

/// `Path::extension` of a file name, when it is valid UTF-8.
#[verifier::external_body]
fn file_extension(filename: &str) -> (r: Option<String>)
    ensures
        match r {
            Some(e) => path_extension(filename@) == Some(e@),
            None => path_extension(filename@) is None,
        },
{
    std::path::Path::new(filename).extension().and_then(|e| e.to_str()).map(|e| e.to_string())
}

/// ASCII lowercase of one character.
pub open spec fn lower(c: char) -> char {
    if 'A' <= c && c <= 'Z' {
        ((c as u32 + 32) as u8) as char
    } else {
        c
    }
}

/// ASCII lowercase of a string.
pub open spec fn lower_seq(s: Seq<char>) -> Seq<char> {
    s.map_values(|c: char| lower(c))
}

fn to_lower_ascii(s: &[char]) -> (r: Vec<char>)
    ensures
        r@ == lower_seq(s@),
{
    let mut r: Vec<char> = Vec::new();
    let mut i: usize = 0;
    while i < s.len()
        invariant
            i <= s@.len(),
            r@ == lower_seq(s@.take(i as int)),
        decreases s@.len() - i,
    {
        let c = s[i];
        let l = if 'A' <= c && c <= 'Z' {
            ((c as u32 + 32) as u8) as char
        } else {
            c
        };
        r.push(l);
        i = i + 1;
        assert(r@ =~= lower_seq(s@.take(i as int)));
    }
    assert(s@.take(s@.len() as int) =~= s@);
    r
}

/// The MIME type of a (lowercased) file extension.
pub open spec fn mime_for(ext: Seq<char>) -> Seq<char> {
    if ext == "pdf"@ {
        "application/pdf"@
    } else if ext == "jpg"@ || ext == "jpeg"@ {
        "image/jpeg"@
    } else if ext == "png"@ {
        "image/png"@
    } else if ext == "gif"@ {
        "image/gif"@
    } else if ext == "webp"@ {
        "image/webp"@
    } else if ext == "txt"@ || ext == "md"@ {
        "text/plain"@
    } else if ext == "html"@ || ext == "htm"@ {
        "text/html"@
    } else if ext == "csv"@ {
        "text/csv"@
    } else if ext == "json"@ {
        "application/json"@
    } else if ext == "xml"@ {
        "application/xml"@
    } else if ext == "zip"@ {
        "application/zip"@
    } else if ext == "tar"@ {
        "application/x-tar"@
    } else if ext == "gz"@ {
        "application/gzip"@
    } else if ext == "doc"@ {
        "application/msword"@
    } else if ext == "docx"@ {
        "application/vnd.openxmlformats-officedocument.wordprocessingml.document"@
    } else if ext == "xls"@ {
        "application/vnd.ms-excel"@
    } else if ext == "xlsx"@ {
        "application/vnd.openxmlformats-officedocument.spreadsheetml.sheet"@
    } else {
        "application/octet-stream"@
    }
}

fn mime_of(ext: &str) -> (r: &'static str)
    ensures
        r@ == mime_for(ext@),
{
    if str_eq(ext, "pdf") {
        "application/pdf"
    } else if str_eq(ext, "jpg") || str_eq(ext, "jpeg") {
        "image/jpeg"
    } else if str_eq(ext, "png") {
        "image/png"
    } else if str_eq(ext, "gif") {
        "image/gif"
    } else if str_eq(ext, "webp") {
        "image/webp"
    } else if str_eq(ext, "txt") || str_eq(ext, "md") {
        "text/plain"
    } else if str_eq(ext, "html") || str_eq(ext, "htm") {
        "text/html"
    } else if str_eq(ext, "csv") {
        "text/csv"
    } else if str_eq(ext, "json") {
        "application/json"
    } else if str_eq(ext, "xml") {
        "application/xml"
    } else if str_eq(ext, "zip") {
        "application/zip"
    } else if str_eq(ext, "tar") {
        "application/x-tar"
    } else if str_eq(ext, "gz") {
        "application/gzip"
    } else if str_eq(ext, "doc") {
        "application/msword"
    } else if str_eq(ext, "docx") {
        "application/vnd.openxmlformats-officedocument.wordprocessingml.document"
    } else if str_eq(ext, "xls") {
        "application/vnd.ms-excel"
    } else if str_eq(ext, "xlsx") {
        "application/vnd.openxmlformats-officedocument.spreadsheetml.sheet"
    } else {
        "application/octet-stream"
    }
}

/// Infer a MIME type from a file name's extension (matched without regard
/// to ASCII case); unknown or missing extensions give
/// `application/octet-stream`.
pub fn mime_from_extension(filename: &str) -> (r: String)
    ensures
        r@ == mime_for(
            match path_extension(filename@) {
                Some(e) => lower_seq(e),
                None => Seq::empty(),
            },
        ),
{
    let ext = file_extension(filename);
    let lowered = match ext {
        Some(e) => {
            let v = chars_of(e.as_str());
            string_from_chars(to_lower_ascii(v.as_slice()).as_slice())
        },
        None => String::new(),
    };
    owned(mime_of(lowered.as_str()))
}

/// The strings joined with single spaces.
pub open spec fn join_spaces(v: Seq<Seq<char>>) -> Seq<char>
    decreases v.len(),
{
    if v.len() == 0 {
        Seq::empty()
    } else if v.len() == 1 {
        v[0]
    } else {
        join_spaces(v.drop_last()) + " "@ + v.last()
    }
}

/// The parent's `References` chain, space-separated, from the stored JSON
/// array of Message-IDs: `None` when there is no column, it does not parse,
/// or it is empty.
pub fn parent_references_chain(references_json: Option<&str>) -> (r: Option<String>)
    ensures
        r matches Some(s) ==> references_json matches Some(j) && json_string_array(j@) matches Some(v)
            && v.len() > 0 && s@ == join_spaces(v),
        r is None ==> references_json is None || json_string_array(references_json->0@) is None
            || json_string_array(references_json->0@)->0.len() == 0,
{
    let json = match references_json {
        Some(j) => j,
        None => return None,
    };
    let parsed = match parse_string_array(json) {
        Some(v) => v,
        None => return None,
    };
    if parsed.len() == 0 {
        return None;
    }
    let ghost model = parsed@.map_values(|s: String| s@);
    let mut out = parsed[0].clone();
    let mut i: usize = 1;
    assert(model.take(1) =~= seq![model[0]]);
    while i < parsed.len()
        invariant
            1 <= i <= parsed@.len(),
            model == parsed@.map_values(|s: String| s@),
            out@ == join_spaces(model.take(i as int)),
        decreases parsed@.len() - i,
    {
        push_char(&mut out, ' ');
        push_str(&mut out, parsed[i].as_str());
        proof {
            reveal_strlit(" ");
            assert(model.take(i + 1).drop_last() =~= model.take(i as int));
            assert(out@ =~= join_spaces(model.take(i + 1)));
        }
        i = i + 1;
    }
    assert(model.take(parsed@.len() as int) =~= model);
    Some(out)
}

/// A draft as the store keeps it.
#[derive(Debug, Clone)]
pub struct DraftEmail {
    pub id: String,
    pub account_id: AccountId,
    /// `<draft-id@inboxly.local>`.
    pub message_id: String,
    pub subject: String,
    pub body_markdown: String,
    pub to: Vec<Contact>,
    pub cc: Vec<Contact>,
    pub bcc: Vec<Contact>,
    pub attachments: Vec<AttachmentDraft>,
    pub mode: ComposeMode,
    pub in_reply_to: Option<String>,
    pub references: Option<String>,
    /// Where the draft's Maildir copy lives, once written.
    pub maildir_path: Option<String>,
    /// Unix seconds (UTC).
    pub created_at: i64,
    /// Unix seconds (UTC).
    pub updated_at: i64,
}

/// The text of an optional string.
pub open spec fn opt_str(v: Option<String>) -> Option<Seq<char>> {
    match v {
        Some(s) => Some(s@),
        None => None,
    }
}

/// `d` is the snapshot of the compose state `c` with id `id`, for the
/// account `account`.
pub open spec fn draft_of(c: ComposeState, account: AccountId, id: Seq<char>, d: DraftEmail) -> bool {
    &&& d.id@ == id
    &&& d.account_id == account
    &&& d.message_id@ == "<"@ + id + "@inboxly.local>"@
    &&& d.subject@ == c.subject@
    &&& d.body_markdown@ == c.body_markdown@
    &&& d.to@ == c.to@
    &&& d.cc@ == c.cc@
    &&& d.bcc@ == c.bcc@
    &&& d.attachments@ == c.attachments@
    &&& d.mode == c.mode
    &&& opt_str(d.in_reply_to) == opt_str(c.in_reply_to)
    &&& opt_str(d.references) == opt_str(c.references)
    &&& d.maildir_path is None
    &&& d.created_at == d.updated_at
}

/// Snapshot the compose state as the draft the store saves; `None` when
/// the compose state has no draft id. Creation and update time are the
/// same clock reading.
pub fn compose_state_to_draft_email(compose: &ComposeState, account_id: AccountId) -> (r: Option<DraftEmail>)
    ensures
        r is None <==> compose.draft_id is None,
        r matches Some(d) ==> compose.draft_id matches Some(id) && draft_of(*compose, account_id, id@, d),
{
    let draft_id = match &compose.draft_id {
        Some(id) => id,
        None => return None,
    };
    let mut message_id = owned("<");
    push_str(&mut message_id, draft_id.as_str());
    push_str(&mut message_id, "@inboxly.local>");
    let now = unix_now();
    let to = compose.to.clone();
    let cc = compose.cc.clone();
    let bcc = compose.bcc.clone();
    let attachments = compose.attachments.clone();
    proof {
        assert(to@ =~= compose.to@);
        assert(cc@ =~= compose.cc@);
        assert(bcc@ =~= compose.bcc@);
        assert(attachments@ =~= compose.attachments@);
    }
    let in_reply_to = match &compose.in_reply_to {
        Some(v) => Some(owned(v.as_str())),
        None => None,
    };
    let references = match &compose.references {
        Some(v) => Some(owned(v.as_str())),
        None => None,
    };
    Some(DraftEmail {
        id: owned(draft_id.as_str()),
        account_id,
        message_id,
        subject: owned(compose.subject.as_str()),
        body_markdown: owned(compose.body_markdown.as_str()),
        to,
        cc,
        bcc,
        attachments,
        mode: compose.mode.clone(),
        in_reply_to,
        references,
        maildir_path: None,
        created_at: now,
        updated_at: now,
    })
}

} // verus!
