use inboxly_ui::account_id::account_id_from_email;
use inboxly_ui::app::drafts::{CredentialProblem, DraftSave, credential_error};
use inboxly_ui::app::{Inboxly, Message};
use inboxly_ui::compose::ComposeSendState;
use inboxly_ui::config::{AccountConfig, AuthMethod};

fn account(email: &str) -> AccountConfig {
    AccountConfig {
        email: email.to_string(),
        display_name: "Alice".to_string(),
        provider: "gmail".to_string(),
        auth_method: AuthMethod::Password,
        imap_host: "imap.example.com".to_string(),
        imap_port: 993,
        smtp_host: "smtp.example.com".to_string(),
        smtp_port: 587,
    }
}

#[test]
fn auto_save_waits_for_unsaved_edits() {
    let mut app = Inboxly::with_accounts(vec![account("alice@example.com")]);
    assert!(matches!(app.auto_save_action(), DraftSave::Skip), "no draft yet");
    let _ = app.update(Message::OpenCompose);
    assert!(matches!(app.auto_save_action(), DraftSave::Skip), "nothing unsaved");
    let _ = app.update(Message::ComposeSubjectChanged("Plans".to_string()));
    match app.auto_save_action() {
        DraftSave::Save { draft, generation } => {
            assert_eq!(generation, app.compose.save_generation);
            assert_eq!(draft.subject, "Plans");
            assert_eq!(Some(draft.id.clone()), app.compose.draft_id);
            assert_eq!(draft.account_id, account_id_from_email("alice@example.com"));
        }
        _ => panic!("expected a save"),
    }
}

#[test]
fn save_without_sending_account_only_ticks() {
    let mut app = Inboxly::with_accounts(vec![]);
    let _ = app.update(Message::OpenCompose);
    let _ = app.update(Message::ComposeSubjectChanged("Plans".to_string()));
    match app.explicit_save_action() {
        DraftSave::TickOnly { generation } => assert_eq!(generation, app.compose.save_generation),
        _ => panic!("expected a tick only"),
    }
}

#[test]
fn saves_are_skipped_while_sending() {
    let mut app = Inboxly::with_accounts(vec![account("alice@example.com")]);
    let _ = app.update(Message::OpenCompose);
    let _ = app.update(Message::ComposeSubjectChanged("Plans".to_string()));
    app.compose.send_state = ComposeSendState::Sending;
    assert!(matches!(app.auto_save_action(), DraftSave::Skip));
    assert!(matches!(app.explicit_save_action(), DraftSave::Skip));
}

#[test]
fn send_plan_needs_an_account_and_a_draft() {
    let mut app = Inboxly::with_accounts(vec![]);
    let _ = app.update(Message::OpenCompose);
    assert_eq!(app.send_plan().unwrap_err(), "no account configured for this draft");

    let app = Inboxly::with_accounts(vec![account("alice@example.com")]);
    assert_eq!(
        app.send_plan().unwrap_err(),
        "compose has no draft_id (OpenCompose did not run)"
    );

    let mut app = Inboxly::with_accounts(vec![account("alice@example.com")]);
    let _ = app.update(Message::OpenCompose);
    let _ = app.update(Message::ComposeSubjectChanged("Hi".to_string()));
    let (acct, draft) = app.send_plan().unwrap();
    assert_eq!(acct.email, "alice@example.com");
    assert_eq!(draft.subject, "Hi");
    assert_eq!(draft.account_id, account_id_from_email("alice@example.com"));
}

#[test]
fn credential_errors_name_the_fix() {
    assert_eq!(
        credential_error(&CredentialProblem::NoPassword, "a@b.c"),
        "no password stored for a@b.c; run `inboxly set-password a@b.c` first"
    );
    assert_eq!(
        credential_error(&CredentialProblem::KeyringFailed("locked".to_string()), "a@b.c"),
        "keyring lookup failed for a@b.c: locked"
    );
    assert_eq!(
        credential_error(&CredentialProblem::NoOAuth2Token, "a@b.c"),
        "no OAuth2 refresh token registered for a@b.c; run `inboxly oauth2-authorize a@b.c` first"
    );
}
