use inboxly_ui::account_id::account_id_from_email;
use inboxly_ui::compose::{
    ComposeMode, ComposeSendState, ComposeState, Contact, compose_state_to_draft_email,
    format_draft_chip_label, mime_from_extension, parent_references_chain,
};

#[test]
fn empty_subject_renders_no_subject_placeholder() {
    assert_eq!(format_draft_chip_label(""), "Draft: (no subject)");
}

#[test]
fn whitespace_only_subject_renders_no_subject_placeholder() {
    assert_eq!(format_draft_chip_label("   \t\n  "), "Draft: (no subject)");
}

#[test]
fn short_subject_is_not_truncated() {
    assert_eq!(format_draft_chip_label("Hello there"), "Draft: Hello there");
}

#[test]
fn long_subject_is_truncated_with_ellipsis() {
    let subject = "abcdefghijabcdefghijabcdefghijabcdefghij";
    let label = format_draft_chip_label(subject);
    assert_eq!(label, "Draft: abcdefghijabcdefghijabcdefghij\u{2026}");
}

#[test]
fn truncation_respects_codepoint_boundaries() {
    let subject = "ééééééééééééééééééééééééééééééé";
    let label = format_draft_chip_label(subject);
    assert!(label.is_char_boundary(label.len()), "truncated label must end on a char boundary");
    assert!(label.ends_with('\u{2026}'));
    let expected: String = std::iter::once("Draft: ".to_string())
        .chain(std::iter::repeat_n("é".to_string(), 30))
        .chain(std::iter::once("\u{2026}".to_string()))
        .collect();
    assert_eq!(label, expected);
}

#[test]
fn subject_of_exactly_thirty_chars_is_kept_whole_after_trim() {
    let subject = "  abcdefghijabcdefghijabcdefghij  ";
    assert_eq!(format_draft_chip_label(subject), "Draft: abcdefghijabcdefghijabcdefghij");
}

#[test]
fn mime_types_by_extension() {
    assert_eq!(mime_from_extension("report.PDF"), "application/pdf");
    assert_eq!(mime_from_extension("photo.jpeg"), "image/jpeg");
    assert_eq!(mime_from_extension("notes.md"), "text/plain");
    assert_eq!(
        mime_from_extension("sheet.xlsx"),
        "application/vnd.openxmlformats-officedocument.spreadsheetml.sheet"
    );
    assert_eq!(mime_from_extension("archive.tar.gz"), "application/gzip");
    assert_eq!(mime_from_extension("README"), "application/octet-stream");
    assert_eq!(mime_from_extension("weird.xyz"), "application/octet-stream");
    assert_eq!(mime_from_extension(".bashrc"), "application/octet-stream");
}

#[test]
fn references_chain_joins_parent_ids() {
    assert_eq!(
        parent_references_chain(Some(r#"["<a@x>","<b@x>"]"#)),
        Some("<a@x> <b@x>".to_string())
    );
    assert_eq!(parent_references_chain(Some("[]")), None);
    assert_eq!(parent_references_chain(Some("not json")), None);
    assert_eq!(parent_references_chain(None), None);
}

#[test]
fn new_compose_state_is_blank_and_cannot_send() {
    let c = ComposeState::new();
    assert!(c.draft_id.is_none());
    assert_eq!(c.mode, ComposeMode::New);
    assert_eq!(c.send_state, ComposeSendState::Idle);
    assert!(!c.can_send());
}

#[test]
fn can_send_needs_recipient_subject_and_idle_state() {
    let mut c = ComposeState::default();
    c.to.push(Contact { name: String::new(), address: "a@b.c".into() });
    c.subject = "   ".into();
    assert!(!c.can_send());
    c.subject = "Hi".into();
    assert!(c.can_send());
    c.send_state = ComposeSendState::Sending;
    assert!(!c.can_send());
}

#[test]
fn mark_dirty_bumps_generation_wrapping() {
    let mut c = ComposeState::new();
    c.save_generation = u64::MAX;
    c.mark_dirty();
    assert!(c.dirty);
    assert_eq!(c.save_generation, 0);
}

#[test]
fn draft_snapshot_copies_the_compose_state() {
    let mut c = ComposeState::new();
    c.draft_id = Some("d-42".to_string());
    c.subject = "Hello".to_string();
    c.body_markdown = "Body".to_string();
    c.to = vec![Contact::new("Bob", "bob@example.com")];
    c.cc = vec![Contact::new("", "carol@example.com")];
    c.mode = ComposeMode::Reply { original_id: "orig-1".to_string() };
    c.in_reply_to = Some("<p@x>".to_string());
    c.references = Some("<a@x> <p@x>".to_string());
    let account = account_id_from_email("alice@example.com");
    let d = compose_state_to_draft_email(&c, account).unwrap();
    assert_eq!(d.id, "d-42");
    assert_eq!(d.account_id, account);
    assert_eq!(d.message_id, "<d-42@inboxly.local>");
    assert_eq!(d.subject, "Hello");
    assert_eq!(d.body_markdown, "Body");
    assert_eq!(d.to, c.to);
    assert_eq!(d.cc, c.cc);
    assert!(d.bcc.is_empty());
    assert_eq!(d.mode, ComposeMode::Reply { original_id: "orig-1".to_string() });
    assert_eq!(d.in_reply_to.as_deref(), Some("<p@x>"));
    assert_eq!(d.references.as_deref(), Some("<a@x> <p@x>"));
    assert!(d.maildir_path.is_none());
    assert_eq!(d.created_at, d.updated_at);
}

#[test]
fn helper_returns_none_without_draft_id() {
    let compose = ComposeState::new();
    assert!(compose.draft_id.is_none());
    let id = account_id_from_email("alice@example.com");
    assert!(compose_state_to_draft_email(&compose, id).is_none());
}

#[test]
fn helper_materialises_arc_recipients_into_owned() {
    let mut compose = ComposeState::new();
    compose.draft_id = Some("d8a17e3b-1234-4abc-9def-000000000001".to_string());
    compose.subject = "Hello".to_string();
    compose.body_markdown = "Body".to_string();
    compose.to.push(Contact::new("Bob", "bob@example.com"));

    let id = account_id_from_email("alice@example.com");
    let draft = compose_state_to_draft_email(&compose, id)
        .expect("draft_id is set, helper must return Some");
    assert_eq!(draft.id, "d8a17e3b-1234-4abc-9def-000000000001");
    assert_eq!(draft.subject, "Hello");
    assert_eq!(draft.body_markdown, "Body");
    assert_eq!(
        draft.message_id,
        "<d8a17e3b-1234-4abc-9def-000000000001@inboxly.local>"
    );
    assert_eq!(draft.to.len(), 1);
    assert_eq!(draft.to[0].address, "bob@example.com");
    assert_eq!(draft.account_id, id);
}
