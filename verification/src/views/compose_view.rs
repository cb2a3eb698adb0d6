//! State of the simple compose form: plain-text recipients, subject and
//! body, and the messages its inputs send.

use vstd::prelude::*;

verus! {

/// Which kind of message the form composes.
#[derive(Debug, Clone, Copy, PartialEq, Eq, Structural)]
pub enum ComposeMode {
    /// Composing a new email.
    New,
    /// Replying to a single sender.
    Reply,
    /// Replying to all recipients.
    ReplyAll,
    /// Forwarding an email.
    Forward,
}

impl Default for ComposeMode {
    fn default() -> (m: Self)
        ensures
            m == ComposeMode::New,
    {
        ComposeMode::New
    }
}

/// The draft being edited in the form.
#[derive(Debug, Clone)]
pub struct ComposeState {
    /// "To" recipients, comma-separated.
    pub to: String,
    /// "Cc" recipients, comma-separated.
    pub cc: String,
    /// Subject line.
    pub subject: String,
    /// Plain-text body.
    pub body: String,
    /// Whether the Cc field is shown.
    pub show_cc: bool,
    /// New, reply, reply-all or forward.
    pub mode: ComposeMode,
    /// Thread being replied to or forwarded, if any.
    pub reply_to_thread: Option<String>,
}

impl Default for ComposeState {
    /// Every text empty, Cc hidden, mode `New`, no original thread.
    fn default() -> (s: Self)
        ensures
            s.to@.len() == 0,
            s.cc@.len() == 0,
            s.subject@.len() == 0,
            s.body@.len() == 0,
            !s.show_cc,
            s.mode == ComposeMode::New,
            s.reply_to_thread is None,
    {
        ComposeState {
            to: String::new(),
            cc: String::new(),
            subject: String::new(),
            body: String::new(),
            show_cc: false,
            mode: ComposeMode::default(),
            reply_to_thread: None,
        }
    }
}

/// What the form's inputs report.
#[derive(Debug, Clone, PartialEq, Eq)]
pub enum ComposeMessage {
    /// The "To" field changed.
    ToChanged(String),
    /// The "Cc" field changed.
    CcChanged(String),
    /// The subject changed.
    SubjectChanged(String),
    /// The body changed.
    BodyChanged(String),
    /// Send was pressed.
    Send,
    /// Discard was pressed.
    Discard,
    /// Show or hide the Cc field.
    ToggleCc,
}

} // verus!
