use chrono::{Duration, Utc};

use inboxly_ui::app::{
    CacheClearOutcome, Effect, Inboxly, Message, MoveDestination, RecipientField, StorageSizes,
    StoredSettings, SweepCandidate, ThreadAction, validate_external_url,
};
use inboxly_ui::compose::{AttachmentDraft, ComposeSendState, Contact};
use inboxly_ui::config::{AccountConfig, AuthMethod, BundleRow};
use inboxly_ui::keyboard::{ShortcutAction, ShortcutMap};
use inboxly_ui::nav::{NavSection, NavTarget, default_bundle_categories};
use inboxly_ui::settings::SettingsTab;
use inboxly_ui::theme::{ActiveView, SystemColorScheme, ThemeConfig, ThemePreference};

fn make_test_account(email: &str, display_name: &str) -> AccountConfig {
    AccountConfig {
        email: email.to_string(),
        display_name: display_name.to_string(),
        provider: "generic".to_string(),
        auth_method: AuthMethod::Password,
        imap_host: "imap.example.com".to_string(),
        imap_port: 993,
        smtp_host: "smtp.example.com".to_string(),
        smtp_port: 587,
    }
}

fn make_test_account_no_name(email: &str) -> AccountConfig {
    make_test_account(email, "")
}

fn bundle(id: &str, category: &str, color: &str, sort_order: i64) -> BundleRow {
    BundleRow {
        id: id.to_string(),
        category: category.to_string(),
        name: category.to_string(),
        color: color.to_string(),
        badge_color: color.to_string(),
        visibility: "visible".to_string(),
        throttle: r#"{"mode":"Immediate"}"#.to_string(),
        sort_order,
    }
}

fn stored_app() -> Inboxly {
    let mut app = Inboxly::default();
    app.store_attached = true;
    app
}

#[test]
fn default_state_is_inbox() {
    let app = Inboxly::default();
    assert_eq!(app.active_view, ActiveView::Inbox);
    assert_eq!(app.active_nav, NavTarget::View(ActiveView::Inbox));
    assert!(app.drawer_open);
}

#[test]
fn navigate_to_snoozed_changes_view_and_nav() {
    let mut app = Inboxly::default();
    let _ = app.update(Message::Navigate(NavTarget::View(ActiveView::Snoozed)));
    assert_eq!(app.active_view, ActiveView::Snoozed);
    assert_eq!(app.active_nav, NavTarget::View(ActiveView::Snoozed));
}

#[test]
fn navigate_to_done_changes_view_and_nav() {
    let mut app = Inboxly::default();
    let _ = app.update(Message::Navigate(NavTarget::View(ActiveView::Done)));
    assert_eq!(app.active_view, ActiveView::Done);
    assert_eq!(app.active_nav, NavTarget::View(ActiveView::Done));
}

#[test]
fn navigate_to_section_does_not_change_active_view() {
    let mut app = Inboxly::default();
    let _ = app.update(Message::Navigate(NavTarget::Section(NavSection::Drafts)));
    assert_eq!(app.active_view, ActiveView::Inbox);
    assert_eq!(app.active_nav, NavTarget::Section(NavSection::Drafts));
}

#[test]
fn navigate_to_bundle_category_does_not_change_active_view() {
    let mut app = Inboxly::default();
    let _ = app.update(Message::Navigate(NavTarget::BundleCategory("Social".into())));
    assert_eq!(app.active_view, ActiveView::Inbox);
    assert_eq!(app.active_nav, NavTarget::BundleCategory("Social".into()));
}

#[test]
fn toggle_drawer() {
    let mut app = Inboxly::default();
    assert!(app.drawer_open);
    let _ = app.update(Message::ToggleDrawer);
    assert!(!app.drawer_open);
    let _ = app.update(Message::ToggleDrawer);
    assert!(app.drawer_open);
}

#[test]
fn navigate_back_to_inbox_from_done() {
    let mut app = Inboxly::default();
    let _ = app.update(Message::Navigate(NavTarget::View(ActiveView::Done)));
    assert_eq!(app.active_view, ActiveView::Done);
    let _ = app.update(Message::Navigate(NavTarget::View(ActiveView::Inbox)));
    assert_eq!(app.active_view, ActiveView::Inbox);
    assert_eq!(app.active_nav, NavTarget::View(ActiveView::Inbox));
}

#[test]
fn nav_section_labels() {
    assert_eq!(NavSection::Drafts.label(), "Drafts");
    assert_eq!(NavSection::Sent.label(), "Sent");
    assert_eq!(NavSection::Reminders.label(), "Reminders");
    assert_eq!(NavSection::Trash.label(), "Trash");
    assert_eq!(NavSection::Spam.label(), "Spam");
}

#[test]
fn default_bundle_categories_has_eight_entries() {
    let cats = default_bundle_categories();
    assert_eq!(cats.len(), 8);
    assert_eq!(cats[0].name, "Social");
    assert_eq!(cats[7].name, "Low Priority");
}

#[test]
fn default_theme_is_light() {
    let app = Inboxly::default();
    assert!(!app.theme.colors.is_dark);
}

#[test]
fn theme_toggle_changes_to_dark() {
    let mut app = Inboxly::default();
    let _ = app.update(Message::ThemeToggled);
    assert!(app.theme.colors.is_dark);
}

#[test]
fn theme_toggle_back_to_light() {
    let mut app = Inboxly::default();
    let _ = app.update(Message::ThemeToggled);
    let _ = app.update(Message::ThemeToggled);
    assert!(!app.theme.colors.is_dark);
}

#[test]
fn theme_changed_message_updates_theme() {
    let mut app = Inboxly::default();
    let _ = app.update(Message::ThemeChanged(ThemeConfig::dark()));
    assert!(app.theme.colors.is_dark);
}

#[test]
fn default_feed_is_empty() {
    let app = Inboxly::default();
    assert!(app.feed_sections.is_empty());
}

#[test]
fn reload_feed_with_store() {
    let (app, fx) = Inboxly::with_store(Ok(SystemColorScheme::Light));
    assert!(app.feed_sections.is_empty());
    assert!(app.store_attached);
    assert_eq!(fx.len(), 1);
    assert!(matches!(fx[0], Effect::ReloadFeed));
}

#[test]
fn reload_feed_message_does_not_panic() {
    let mut app = Inboxly::default();
    let fx = app.update(Message::ReloadFeed);
    assert!(app.feed_sections.is_empty());
    assert!(fx.is_empty());
}

#[test]
fn navigate_to_settings_stores_previous_view() {
    let mut app = Inboxly::default();
    app.active_view = ActiveView::Snoozed;
    let _ = app.update(Message::NavigateToSettings);
    assert_eq!(app.active_view, ActiveView::Settings);
    assert_eq!(app.previous_view, ActiveView::Snoozed);
    assert!(!app.drawer_open);
}

#[test]
fn navigate_to_settings_while_already_in_settings_preserves_previous_view() {
    let mut app = Inboxly::default();
    app.active_view = ActiveView::Snoozed;
    let _ = app.update(Message::NavigateToSettings);
    assert_eq!(app.previous_view, ActiveView::Snoozed);
    let _ = app.update(Message::NavigateToSettings);
    assert_eq!(
        app.previous_view,
        ActiveView::Snoozed,
        "re-entry to Settings must not overwrite previous_view"
    );
    let _ = app.update(Message::NavigateBack);
    assert_eq!(
        app.active_view,
        ActiveView::Snoozed,
        "NavigateBack should return to the original previous view"
    );
}

#[test]
fn navigate_back_from_settings_restores_view() {
    let mut app = Inboxly::default();
    app.active_view = ActiveView::Done;
    let _ = app.update(Message::NavigateToSettings);
    let _ = app.update(Message::NavigateBack);
    assert_eq!(app.active_view, ActiveView::Done);
    assert!(app.drawer_open);
}

#[test]
fn open_overflow_menu_sets_state() {
    let mut app = Inboxly::default();
    let _ = app.update(Message::OpenOverflowMenu { thread_id: "t1".into(), sender_address: "a@b.com".into() });
    assert_eq!(app.menus.overflow_thread, Some("t1".into()));
}

#[test]
fn open_overflow_menu_sets_position_and_sender() {
    let mut app = Inboxly::default();
    let _ = app.update(Message::OpenOverflowMenu {
        thread_id: "t1".into(),
        sender_address: "sender@example.com".into(),
    });
    assert_eq!(app.menus.overflow_thread, Some("t1".into()));
    assert_eq!(app.menus.thread_sender, Some("sender@example.com".into()));
}

#[test]
fn open_context_menu_sets_sender() {
    let mut app = Inboxly::default();
    let _ = app.update(Message::OpenContextMenu {
        thread_id: "t2".into(),
        sender_address: "ctx@example.com".into(),
    });
    assert_eq!(app.menus.context_thread, Some("t2".into()));
    assert_eq!(app.menus.thread_sender, Some("ctx@example.com".into()));
}

#[test]
fn close_overflow_menu_clears_state() {
    let mut app = Inboxly::default();
    let _ = app.update(Message::OpenOverflowMenu { thread_id: "t1".into(), sender_address: "a@b.com".into() });
    let _ = app.update(Message::CloseOverflowMenu);
    assert!(app.menus.overflow_thread.is_none());
}

#[test]
fn close_overflow_menu_clears_sender() {
    let mut app = Inboxly::default();
    let _ = app.update(Message::OpenOverflowMenu { thread_id: "t1".into(), sender_address: "a@b.com".into() });
    let _ = app.update(Message::CloseOverflowMenu);
    assert!(app.menus.thread_sender.is_none());
}

#[test]
fn close_context_menu_clears_sender() {
    let mut app = Inboxly::default();
    let _ = app.update(Message::OpenContextMenu { thread_id: "t1".into(), sender_address: "a@b.com".into() });
    let _ = app.update(Message::CloseContextMenu);
    assert!(app.menus.context_thread.is_none());
    assert!(app.menus.thread_sender.is_none());
}

#[test]
fn open_context_menu_closes_overflow() {
    let mut app = Inboxly::default();
    let _ = app.update(Message::OpenOverflowMenu { thread_id: "t1".into(), sender_address: "a@b.com".into() });
    let _ = app.update(Message::OpenContextMenu { thread_id: "t2".into(), sender_address: "ctx@b.com".into() });
    assert!(app.menus.overflow_thread.is_none());
    assert_eq!(app.menus.context_thread, Some("t2".into()));
}

#[test]
fn opening_context_menu_clears_overflow_sender() {
    let mut app = Inboxly::default();
    let _ = app.update(Message::OpenOverflowMenu {
        thread_id: "t1".into(),
        sender_address: "overflow@b.com".into(),
    });
    let _ = app.update(Message::OpenContextMenu { thread_id: "t2".into(), sender_address: "ctx@b.com".into() });
    assert!(app.menus.overflow_thread.is_none());
    assert_eq!(app.menus.thread_sender, Some("ctx@b.com".into()));
}

#[test]
fn open_overflow_closes_context_menu() {
    let mut app = Inboxly::default();
    let _ = app.update(Message::OpenContextMenu { thread_id: "t1".into(), sender_address: "a@b.com".into() });
    let _ = app.update(Message::OpenOverflowMenu { thread_id: "t2".into(), sender_address: "b@b.com".into() });
    assert!(app.menus.context_thread.is_none());
    assert_eq!(app.menus.overflow_thread, Some("t2".into()));
    assert_eq!(app.menus.thread_sender, Some("b@b.com".into()));
}

#[test]
fn thread_actions_close_menus() {
    let mut app = Inboxly::default();
    let _ = app.update(Message::OpenOverflowMenu { thread_id: "t1".into(), sender_address: "a@b.com".into() });
    let _ = app.update(Message::MoveTo { thread_id: "t1".into(), destination: MoveDestination::Inbox });
    assert!(app.menus.overflow_thread.is_none());
    assert!(app.menus.thread_sender.is_none());
}

#[test]
fn thread_actions_do_not_panic() {
    let mut app = Inboxly::default();
    let _ = app.update(Message::MoveTo { thread_id: "t1".into(), destination: MoveDestination::Trash });
    let _ = app.update(Message::MarkReadState { thread_id: "t1".into(), read: true });
    let _ = app.update(Message::MuteThread("t1".into()));
    let _ = app.update(Message::Reply("t1".into()));
    let _ = app.update(Message::ReplyAll("t1".into()));
    let _ = app.update(Message::Forward("t1".into()));
    let _ = app.update(Message::AddToBundle { thread_id: "t1".into(), category: "Social".into() });
    let _ = app.update(Message::CreateRuleFromSender("a@b.com".into()));
    let _ = app.update(Message::BlockSender { thread_id: "t1".into(), sender_address: "a@b.com".into() });
    let _ = app.update(Message::ReportSpam("t1".into()));
}

#[test]
fn context_menu_reply_dispatches_reply_and_closes() {
    let mut app = Inboxly::default();
    let _ = app.update(Message::OpenContextMenu { thread_id: "t1".into(), sender_address: "a@b.com".into() });
    let _ = app.update(Message::Reply("t1".into()));
    assert!(app.menus.context_thread.is_none());
    assert!(app.menus.thread_sender.is_none());
}

#[test]
fn overflow_menu_mark_read_closes_menu() {
    let mut app = Inboxly::default();
    let _ = app.update(Message::OpenOverflowMenu { thread_id: "t1".into(), sender_address: "a@b.com".into() });
    let _ = app.update(Message::MarkReadState { thread_id: "t1".into(), read: true });
    assert!(app.menus.overflow_thread.is_none());
    assert!(app.menus.thread_sender.is_none());
}

#[test]
fn context_menu_add_to_bundle_closes_menu() {
    let mut app = Inboxly::default();
    let _ = app.update(Message::OpenContextMenu { thread_id: "t1".into(), sender_address: "a@b.com".into() });
    let _ = app.update(Message::AddToBundle { thread_id: "t1".into(), category: "Social".into() });
    assert!(app.menus.context_thread.is_none());
    assert!(app.menus.thread_sender.is_none());
}

#[test]
fn context_menu_block_sender_uses_menu_sender() {
    let mut app = Inboxly::default();
    let _ = app.update(Message::OpenContextMenu {
        thread_id: "t1".into(),
        sender_address: "menu@sender.com".into(),
    });
    assert_eq!(app.menus.thread_sender, Some("menu@sender.com".into()));
    let _ = app.update(Message::BlockSender {
        thread_id: "t1".into(),
        sender_address: "menu@sender.com".into(),
    });
    assert!(app.menus.context_thread.is_none());
    assert!(app.menus.thread_sender.is_none());
}

#[test]
fn toggle_account_switcher() {
    let mut app = Inboxly::default();
    assert!(!app.account_switcher_open);
    let _ = app.update(Message::ToggleAccountSwitcher);
    assert!(app.account_switcher_open);
    let _ = app.update(Message::ToggleAccountSwitcher);
    assert!(!app.account_switcher_open);
}

#[test]
fn switch_account_out_of_bounds_is_noop() {
    let mut app = Inboxly::default();
    assert_eq!(app.active_account_index, 0);
    let _ = app.update(Message::SwitchAccount(5));
    assert_eq!(app.active_account_index, 0);
}

#[test]
fn active_email_with_no_accounts() {
    let app = Inboxly::default();
    assert_eq!(app.active_email(), "No account");
    assert_eq!(app.active_display_name(), "No account");
    assert!(app.active_account().is_none());
}

#[test]
fn app_navigate_closes_account_switcher() {
    let mut app = Inboxly::default();
    app.account_switcher_open = true;
    let _ = app.update(Message::Navigate(NavTarget::View(ActiveView::Inbox)));
    assert!(!app.account_switcher_open);
}

#[test]
fn switch_account_changes_active_index() {
    let mut app = Inboxly::default();
    app.accounts = vec![
        make_test_account("first@example.com", "First"),
        make_test_account("second@example.com", "Second"),
    ];
    let _ = app.update(Message::SwitchAccount(1));
    assert_eq!(app.active_account_index, 1);
    assert_eq!(app.active_email(), "second@example.com");
}

#[test]
fn switch_account_closes_switcher() {
    let mut app = Inboxly::default();
    app.accounts = vec![make_test_account("test@example.com", "Test")];
    app.account_switcher_open = true;
    let _ = app.update(Message::SwitchAccount(0));
    assert!(!app.account_switcher_open);
}

#[test]
fn active_display_name_falls_back_to_email() {
    let mut app = Inboxly::default();
    app.accounts = vec![make_test_account_no_name("test@example.com")];
    assert_eq!(app.active_display_name(), "test@example.com");
    app.accounts = vec![make_test_account("test@example.com", "Test User")];
    assert_eq!(app.active_display_name(), "Test User");
}

#[test]
fn app_with_accounts_sets_accounts() {
    let accounts = vec![make_test_account("test@example.com", "Test")];
    let app = Inboxly::with_accounts(accounts);
    assert_eq!(app.accounts.len(), 1);
    assert_eq!(app.active_email(), "test@example.com");
}

#[test]
fn account_switcher_starts_collapsed() {
    let app = Inboxly::default();
    assert!(!app.account_switcher_open);
}

#[test]
fn account_switcher_toggles() {
    let mut app = Inboxly::default();
    app.update(Message::ToggleAccountSwitcher);
    assert!(app.account_switcher_open);
    app.update(Message::ToggleAccountSwitcher);
    assert!(!app.account_switcher_open);
}

#[test]
fn switch_to_same_account_still_closes_switcher() {
    let mut app = Inboxly::default();
    app.accounts = vec![make_test_account("test@example.com", "Test User")];
    app.account_switcher_open = true;
    app.update(Message::SwitchAccount(0));
    assert!(!app.account_switcher_open);
    assert_eq!(app.active_account_index, 0);
}

#[test]
fn switch_account_updates_index_and_closes() {
    let mut app = Inboxly::default();
    app.accounts = vec![
        make_test_account("first@example.com", "First"),
        make_test_account("second@example.com", "Second"),
    ];
    app.account_switcher_open = true;
    app.update(Message::SwitchAccount(1));
    assert_eq!(app.active_account_index, 1);
    assert_eq!(app.active_email(), "second@example.com");
    assert!(!app.account_switcher_open);
}

#[test]
fn nav_navigate_closes_account_switcher() {
    let mut app = Inboxly::default();
    app.account_switcher_open = true;
    app.update(Message::Navigate(NavTarget::View(ActiveView::Inbox)));
    assert!(!app.account_switcher_open);
}

#[test]
fn nav_with_accounts_sets_accounts() {
    let accounts = vec![make_test_account("test@example.com", "Test")];
    let app = Inboxly::with_accounts(accounts);
    assert_eq!(app.accounts.len(), 1);
    assert_eq!(app.active_email(), "test@example.com");
}

#[test]
fn open_settings_changes_view_and_hides_drawer() {
    let mut app = Inboxly::default();
    assert!(app.drawer_open);
    let _ = app.update(Message::NavigateToSettings);
    assert_eq!(app.active_view, ActiveView::Settings);
    assert!(!app.drawer_open);
}

#[test]
fn close_settings_restores_previous_view() {
    let mut app = Inboxly::default();
    let _ = app.update(Message::Navigate(NavTarget::View(ActiveView::Done)));
    let _ = app.update(Message::NavigateToSettings);
    assert_eq!(app.active_view, ActiveView::Settings);
    let _ = app.update(Message::NavigateBack);
    assert_eq!(app.active_view, ActiveView::Done);
}

#[test]
fn close_settings_restores_drawer_state() {
    let mut app = Inboxly::default();
    app.drawer_open = false;
    let _ = app.update(Message::NavigateToSettings);
    assert!(!app.drawer_open);
    let _ = app.update(Message::NavigateBack);
    assert!(!app.drawer_open);

    app.drawer_open = true;
    let _ = app.update(Message::NavigateToSettings);
    assert!(!app.drawer_open);
    let _ = app.update(Message::NavigateBack);
    assert!(app.drawer_open);
}

#[test]
fn settings_tab_defaults_to_general() {
    let mut app = Inboxly::default();
    let _ = app.update(Message::NavigateToSettings);
    assert_eq!(app.settings.tab, SettingsTab::General);
}

#[test]
fn settings_tab_change() {
    let mut app = Inboxly::default();
    let _ = app.update(Message::NavigateToSettings);
    let _ = app.update(Message::SettingsTabChanged(SettingsTab::Accounts));
    assert_eq!(app.settings.tab, SettingsTab::Accounts);
}

#[test]
fn settings_tab_change_resets_edit_state() {
    let mut app = Inboxly::default();
    let _ = app.update(Message::NavigateToSettings);
    app.settings.adding_account = true;
    app.settings.editing_account_index = Some(0);
    app.settings.removing_account_index = Some(1);
    app.settings.data_action_status = Some("test".to_owned());
    let _ = app.update(Message::SettingsTabChanged(SettingsTab::General));
    assert!(!app.settings.adding_account);
    assert!(app.settings.editing_account_index.is_none());
    assert!(app.settings.removing_account_index.is_none());
    assert!(app.settings.data_action_status.is_none());
}

#[test]
fn add_account_start_opens_form() {
    let mut app = Inboxly::default();
    let _ = app.update(Message::AddAccountStart);
    assert!(app.settings.adding_account);
    assert!(app.settings.editing_account_index.is_none());
    assert!(app.settings.removing_account_index.is_none());
    assert_eq!(app.settings.account_form.provider, "generic");
    assert_eq!(app.settings.account_form.imap_port, 993);
    assert_eq!(app.settings.account_form.smtp_port, 587);
}

#[test]
fn account_form_cancel_resets_state() {
    let mut app = Inboxly::default();
    let _ = app.update(Message::AddAccountStart);
    assert!(app.settings.adding_account);
    let _ = app.update(Message::AccountFormCancel);
    assert!(!app.settings.adding_account);
    assert!(app.settings.editing_account_index.is_none());
}

#[test]
fn account_form_field_updates() {
    let mut app = Inboxly::default();
    let _ = app.update(Message::AccountFormEmailChanged("test@example.com".into()));
    assert_eq!(app.settings.account_form.email, "test@example.com");

    let _ = app.update(Message::AccountFormDisplayNameChanged("Test User".into()));
    assert_eq!(app.settings.account_form.display_name, "Test User");

    let _ = app.update(Message::AccountFormProviderChanged("gmail".into()));
    assert_eq!(app.settings.account_form.provider, "gmail");

    let _ = app.update(Message::AccountFormAuthMethodChanged("oauth2".into()));
    assert_eq!(app.settings.account_form.auth_method, AuthMethod::OAuth2);

    let _ = app.update(Message::AccountFormImapHostChanged("imap.gmail.com".into()));
    assert_eq!(app.settings.account_form.imap_host, "imap.gmail.com");

    let _ = app.update(Message::AccountFormImapPortChanged("143".into()));
    assert_eq!(app.settings.account_form.imap_port, 143);

    let _ = app.update(Message::AccountFormSmtpHostChanged("smtp.gmail.com".into()));
    assert_eq!(app.settings.account_form.smtp_host, "smtp.gmail.com");

    let _ = app.update(Message::AccountFormSmtpPortChanged("465".into()));
    assert_eq!(app.settings.account_form.smtp_port, 465);
}

#[test]
fn remove_account_confirm_and_cancel() {
    let mut app = Inboxly::default();
    let _ = app.update(Message::RemoveAccountConfirm(1));
    assert_eq!(app.settings.removing_account_index, Some(1));
    let _ = app.update(Message::RemoveAccountCancel);
    assert!(app.settings.removing_account_index.is_none());
}

#[test]
fn undo_timeout_values() {
    let mut app = Inboxly::default();
    for secs in [3, 5, 7, 10, 15] {
        let _ = app.update(Message::SetUndoTimeout(secs));
        assert_eq!(app.settings.undo_timeout_secs, secs);
    }
}

#[test]
fn toggle_notifications() {
    let mut app = Inboxly::default();
    assert!(app.settings.notifications_enabled);
    let _ = app.update(Message::ToggleNotifications);
    assert!(!app.settings.notifications_enabled);
    let _ = app.update(Message::ToggleNotifications);
    assert!(app.settings.notifications_enabled);
}

#[test]
fn toggle_notification_sound() {
    let mut app = Inboxly::default();
    assert!(app.settings.notification_sound);
    let _ = app.update(Message::ToggleNotificationSound);
    assert!(!app.settings.notification_sound);
    let _ = app.update(Message::ToggleNotificationSound);
    assert!(app.settings.notification_sound);
}

#[test]
fn set_notification_bundles() {
    let mut app = Inboxly::default();
    assert_eq!(app.settings.notification_bundles, vec!["all".to_string()]);

    let _ = app.update(Message::SetNotificationBundles(vec!["Social".to_string(), "Finance".to_string()]));
    assert_eq!(app.settings.notification_bundles.len(), 2);
    assert!(app.settings.notification_bundles.contains(&"Social".to_string()));
    assert!(app.settings.notification_bundles.contains(&"Finance".to_string()));

    let _ = app.update(Message::SetNotificationBundles(vec!["primary".to_string()]));
    assert_eq!(app.settings.notification_bundles, vec!["primary".to_string()]);
}

#[test]
fn toggle_bundle_visibility() {
    let mut app = Inboxly::default();
    app.settings.bundles.push(bundle("b1", "Social", "#1DA1F2", 0));

    let _ = app.update(Message::ToggleBundleVisibility("b1".to_string()));
    assert_eq!(app.settings.bundles[0].visibility, "hidden");

    let _ = app.update(Message::ToggleBundleVisibility("b1".to_string()));
    assert_eq!(app.settings.bundles[0].visibility, "visible");
}

#[test]
fn toggle_bundle_visibility_unknown_id_is_noop() {
    let mut app = Inboxly::default();
    let fx = app.update(Message::ToggleBundleVisibility("nonexistent".to_string()));
    assert!(fx.is_empty());
}

#[test]
fn start_capture() {
    let mut app = Inboxly::default();
    assert!(app.settings.capturing_shortcut.is_none());
    let _ = app.update(Message::StartCapture(ShortcutAction::Done));
    assert_eq!(app.settings.capturing_shortcut, Some(ShortcutAction::Done));
}

#[test]
fn cancel_capture() {
    let mut app = Inboxly::default();
    let _ = app.update(Message::StartCapture(ShortcutAction::Done));
    assert!(app.settings.capturing_shortcut.is_some());
    let _ = app.update(Message::CancelCapture);
    assert!(app.settings.capturing_shortcut.is_none());
}

#[test]
fn set_shortcut() {
    let mut app = Inboxly::default();
    let _ = app.update(Message::StartCapture(ShortcutAction::Done));
    let _ = app.update(Message::SetShortcut { action: ShortcutAction::Done, binding: "d".to_string() });
    assert_eq!(app.settings.shortcuts.get(ShortcutAction::Done), "d");
    assert!(app.settings.capturing_shortcut.is_none());
    assert!(app.settings.shortcuts.is_customised(ShortcutAction::Done));
}

#[test]
fn reset_shortcut() {
    let mut app = Inboxly::default();
    let _ = app.update(Message::SetShortcut { action: ShortcutAction::Done, binding: "d".to_string() });
    assert_eq!(app.settings.shortcuts.get(ShortcutAction::Done), "d");

    let _ = app.update(Message::ResetShortcut(ShortcutAction::Done));
    assert_eq!(app.settings.shortcuts.get(ShortcutAction::Done), "e");
    assert!(!app.settings.shortcuts.is_customised(ShortcutAction::Done));
}

#[test]
fn bundles_loaded_replaces_list() {
    let mut app = Inboxly::default();
    assert!(app.settings.bundles.is_empty());
    let bundles = vec![bundle("b1", "Social", "#1DA1F2", 0), bundle("b2", "Finance", "#0f9d58", 1)];
    let _ = app.update(Message::BundlesLoaded(bundles));
    assert_eq!(app.settings.bundles.len(), 2);
}

#[test]
fn reorder_bundles() {
    let mut app = Inboxly::default();
    app.settings.bundles = vec![bundle("b1", "Social", "#1DA1F2", 0), bundle("b2", "Finance", "#0f9d58", 1)];
    let _ = app.update(Message::ReorderBundles(vec!["b2".to_string(), "b1".to_string()]));
    assert_eq!(app.settings.bundles[0].id, "b2");
    assert_eq!(app.settings.bundles[0].sort_order, 0);
    assert_eq!(app.settings.bundles[1].id, "b1");
    assert_eq!(app.settings.bundles[1].sort_order, 1);
}

#[test]
fn set_bundle_throttle() {
    let mut app = Inboxly::default();
    app.settings.bundles.push(bundle("b1", "Social", "#1DA1F2", 0));
    let daily_json = r#"{"mode":"Daily","delivery_time":"17:00:00"}"#.to_string();
    let _ = app.update(Message::SetBundleThrottle { bundle_id: "b1".to_string(), throttle_json: daily_json.clone() });
    assert_eq!(app.settings.bundles[0].throttle, daily_json);
}

#[test]
fn toggle_throttle_popup() {
    let mut app = Inboxly::default();
    assert!(app.settings.throttle_popup_bundle_id.is_none());
    let _ = app.update(Message::ToggleThrottlePopup(Some("b1".to_string())));
    assert_eq!(app.settings.throttle_popup_bundle_id, Some("b1".to_string()));
    let _ = app.update(Message::ToggleThrottlePopup(None));
    assert!(app.settings.throttle_popup_bundle_id.is_none());
}

#[test]
fn shortcuts_loaded_replaces_map() {
    let mut app = Inboxly::default();
    let mut custom_map = ShortcutMap::defaults();
    custom_map.set(ShortcutAction::Done, "x".to_owned());
    let _ = app.update(Message::ShortcutsLoaded(custom_map));
    assert_eq!(app.settings.shortcuts.get(ShortcutAction::Done), "x");
}

#[test]
fn toggle_bundle_expand_adds_and_removes() {
    let mut app = Inboxly::default();
    assert!(app.expanded_bundles.is_empty());
    let _ = app.update(Message::ToggleBundleExpand("b1".into()));
    assert!(app.expanded_bundles.iter().any(|b| b == "b1"));
    let _ = app.update(Message::ToggleBundleExpand("b1".into()));
    assert!(!app.expanded_bundles.iter().any(|b| b == "b1"));
}

#[test]
fn mark_done_pushes_undo_state() {
    let mut app = Inboxly::default();
    let _ = app.update(Message::MarkDone("t1".into()));
    assert!(app.undo_state.is_active());
    assert_eq!(app.undo_state.description().as_deref(), Some("Conversation marked done"));
}

#[test]
fn toggle_pin_pushes_undo_state() {
    let mut app = Inboxly::default();
    let _ = app.update(Message::TogglePin { thread_id: "t1".into(), was_pinned: false });
    assert!(app.undo_state.is_active());
    assert_eq!(app.undo_state.description().as_deref(), Some("Pinned"));
}

#[test]
fn open_snooze_picker_sets_state() {
    let mut app = Inboxly::default();
    let _ = app.update(Message::OpenSnoozePicker { thread_id: "t1".into() });
    assert_eq!(app.snooze.picker_thread, Some("t1".into()));
}

#[test]
fn close_snooze_picker_clears_state() {
    let mut app = Inboxly::default();
    let _ = app.update(Message::OpenSnoozePicker { thread_id: "t1".into() });
    let _ = app.update(Message::CloseSnoozePicker);
    assert!(app.snooze.picker_thread.is_none());
}

#[test]
fn open_snooze_picker_closes_other_menus() {
    let mut app = Inboxly::default();
    let _ = app.update(Message::OpenOverflowMenu { thread_id: "t0".into(), sender_address: "a@b.com".into() });
    let _ = app.update(Message::OpenContextMenu { thread_id: "t0".into(), sender_address: "a@b.com".into() });
    let _ = app.update(Message::OpenSnoozePicker { thread_id: "t1".into() });
    assert!(app.menus.overflow_thread.is_none());
    assert!(app.menus.context_thread.is_none());
    assert_eq!(app.snooze.picker_thread, Some("t1".into()));
}

#[test]
fn snooze_thread_closes_picker() {
    let mut app = Inboxly::default();
    let _ = app.update(Message::OpenSnoozePicker { thread_id: "t1".into() });
    assert_eq!(app.snooze.picker_thread, Some("t1".into()));
    let _ = app.update(Message::SnoozeThread {
        thread_id: "t1".into(),
        until: (Utc::now() + Duration::hours(1)).timestamp(),
    });
    assert!(app.snooze.picker_thread.is_none(), "SnoozeThread should close the picker");
}

#[test]
fn undo_message_reverses_mark_done() {
    let mut app = Inboxly::default();
    let _ = app.update(Message::MarkDone("t1".into()));
    assert!(app.undo_state.is_active());
    let _ = app.update(Message::Undo);
    assert!(!app.undo_state.is_active());
}

#[test]
fn undo_expired_clears_state() {
    let mut app = Inboxly::default();
    let _ = app.update(Message::MarkDone("t1".into()));
    assert!(app.undo_state.is_active());
    let _ = app.update(Message::UndoExpired);
    assert!(!app.undo_state.is_active());
}

#[test]
fn undo_state_reusable_after_expire() {
    let mut app = Inboxly::default();
    let _ = app.update(Message::MarkDone("t1".into()));
    assert!(app.undo_state.is_active());
    let _ = app.update(Message::UndoExpired);
    assert!(!app.undo_state.is_active());
    let _ = app.update(Message::MarkDone("t2".into()));
    assert!(app.undo_state.is_active());
}

#[test]
fn inbox_feed_sections_empty_by_default() {
    let app = Inboxly::default();
    assert!(app.feed_sections.is_empty());
}

#[test]
fn open_thread_sets_open_thread_id_field() {
    let mut app = Inboxly::default();
    assert!(app.open_thread_id.is_none());
    let _ = app.update(Message::OpenThread("t1".into()));
    assert_eq!(app.open_thread_id.as_deref(), Some("t1"));
}

#[test]
fn close_thread_clears_open_thread_id_field() {
    let mut app = Inboxly::default();
    let _ = app.update(Message::OpenThread("t1".into()));
    let _ = app.update(Message::CloseThread);
    assert!(app.open_thread_id.is_none());
}

#[test]
fn open_thread_dismisses_open_menus() {
    let mut app = Inboxly::default();
    let _ = app.update(Message::OpenContextMenu { thread_id: "t1".into(), sender_address: "a@b.com".into() });
    assert_eq!(app.menus.context_thread, Some("t1".into()));
    let _ = app.update(Message::OpenThread("t1".into()));
    assert!(app.menus.context_thread.is_none());
    assert!(app.menus.thread_sender.is_none());
    assert_eq!(app.open_thread_id.as_deref(), Some("t1"));
}

#[test]
fn opening_thread_does_not_load_body_into_inboxly() {
    let mut app = Inboxly::default();
    let _ = app.update(Message::OpenThread("t1".into()));
    assert_eq!(app.open_thread_id.as_deref(), Some("t1"));
}

#[test]
fn open_thread_dismisses_account_switcher() {
    let mut app = Inboxly::default();
    app.account_switcher_open = true;
    let _ = app.update(Message::OpenThread("t1".into()));
    assert!(!app.account_switcher_open, "OpenThread must dismiss the account switcher");
    assert_eq!(app.open_thread_id.as_deref(), Some("t1"));
}

#[test]
fn switch_account_clears_open_thread_id() {
    let mut app = Inboxly::with_accounts(vec![
        make_test_account("first@example.com", "First"),
        make_test_account("second@example.com", "Second"),
    ]);
    let _ = app.update(Message::OpenThread("t1".into()));
    assert_eq!(app.open_thread_id.as_deref(), Some("t1"));
    let _ = app.update(Message::SwitchAccount(1));
    assert_eq!(app.active_account_index, 1);
    assert!(app.open_thread_id.is_none());
}

#[test]
fn validate_external_url_accepts_https() {
    assert!(validate_external_url("https://example.com").is_ok());
}

#[test]
fn validate_external_url_accepts_http() {
    assert!(validate_external_url("http://example.com").is_ok());
}

#[test]
fn validate_external_url_accepts_mailto() {
    assert!(validate_external_url("mailto:friend@example.com").is_ok());
}

#[test]
fn validate_external_url_rejects_javascript_scheme() {
    let result = validate_external_url("javascript:alert(1)");
    assert!(result.is_err());
    let err = result.unwrap_err();
    assert!(err.contains("javascript"), "rejection should name the scheme: {err}");
}

#[test]
fn validate_external_url_rejects_file_scheme() {
    let result = validate_external_url("file:///etc/passwd");
    assert!(result.is_err());
    let err = result.unwrap_err();
    assert!(err.contains("file"), "rejection should name the scheme: {err}");
}

#[test]
fn validate_external_url_rejects_garbage_input() {
    let result = validate_external_url("not a url at all !!!");
    assert!(result.is_err());
    let err = result.unwrap_err();
    assert!(err.contains("failed to parse"), "garbage input should fail at parse, not scheme: {err}");
}

#[test]
fn validate_external_url_error_texts() {
    assert_eq!(
        validate_external_url("file:///etc/passwd").unwrap_err(),
        "rejected scheme \"file\" for url \"file:///etc/passwd\""
    );
}

fn test_account(email: &str) -> AccountConfig {
    make_test_account_no_name(email)
}

#[test]
fn open_compose_initializes_state_and_active_view() {
    let mut app = Inboxly::default();
    app.accounts = vec![test_account("alan@example.com")];
    app.active_account_index = 0;
    let _ = app.update(Message::OpenCompose);
    assert_eq!(app.active_view, ActiveView::Compose);
    assert!(app.compose.draft_id.is_some(), "OpenCompose must eagerly assign a draft_id");
    assert_eq!(app.compose.draft_id.as_ref().unwrap().len(), 36);
    assert_eq!(app.compose.from_account_index, 0);
    assert_eq!(app.compose.send_state, ComposeSendState::Idle);
    assert!(!app.compose.dirty);
    assert!(app.compose.to.is_empty());
    assert!(app.compose.subject.is_empty());
}

#[test]
fn open_compose_preserves_open_thread_id() {
    let mut app = Inboxly::default();
    app.open_thread_id = Some("t1".to_string());
    let _ = app.update(Message::OpenCompose);
    assert_eq!(app.open_thread_id.as_deref(), Some("t1"));
    assert_eq!(app.active_view, ActiveView::Compose);
}

#[test]
fn compose_subject_changed_marks_dirty_and_bumps_generation() {
    let mut app = Inboxly::default();
    let _ = app.update(Message::OpenCompose);
    let snapshot = app.compose.save_generation;
    assert!(!app.compose.dirty);
    let _ = app.update(Message::ComposeSubjectChanged("hello".to_string()));
    assert_eq!(app.compose.subject, "hello");
    assert!(app.compose.dirty);
    assert!(app.compose.save_generation > snapshot, "save_generation must bump on every field change");
}

#[test]
fn compose_add_recipient_appends_to_correct_field() {
    let mut app = Inboxly::default();
    let _ = app.update(Message::OpenCompose);
    let _ = app.update(Message::ComposeAddRecipient {
        field: RecipientField::To,
        contact: Contact::new("Alan", "alan@example.com"),
    });
    let _ = app.update(Message::ComposeAddRecipient {
        field: RecipientField::Cc,
        contact: Contact::new("Bob", "bob@example.com"),
    });
    assert_eq!(app.compose.to.len(), 1);
    assert_eq!(app.compose.cc.len(), 1);
    assert!(app.compose.bcc.is_empty());
    assert_eq!(app.compose.to[0].address, "alan@example.com");
    assert_eq!(app.compose.cc[0].address, "bob@example.com");
    assert!(app.compose.dirty);
}

#[test]
fn compose_remove_recipient_by_index() {
    let mut app = Inboxly::default();
    let _ = app.update(Message::OpenCompose);
    for (name, addr) in [("Alpha", "a@example.com"), ("Beta", "b@example.com"), ("Gamma", "c@example.com")] {
        let _ = app.update(Message::ComposeAddRecipient {
            field: RecipientField::To,
            contact: Contact::new(name, addr),
        });
    }
    assert_eq!(app.compose.to.len(), 3);
    let _ = app.update(Message::ComposeRemoveRecipient { field: RecipientField::To, index: 1 });
    assert_eq!(app.compose.to.len(), 2);
    assert_eq!(app.compose.to[0].address, "a@example.com");
    assert_eq!(app.compose.to[1].address, "c@example.com");
    let _ = app.update(Message::ComposeRemoveRecipient { field: RecipientField::To, index: 99 });
    assert_eq!(app.compose.to.len(), 2);
}

#[test]
fn compose_toggle_cc_bcc_and_preview() {
    let mut app = Inboxly::default();
    let _ = app.update(Message::OpenCompose);
    assert!(!app.compose.show_cc_bcc);
    assert!(!app.compose.show_preview);
    let _ = app.update(Message::ComposeToggleCcBcc);
    let _ = app.update(Message::ComposeTogglePreview);
    assert!(app.compose.show_cc_bcc);
    assert!(app.compose.show_preview);
    let _ = app.update(Message::ComposeToggleCcBcc);
    let _ = app.update(Message::ComposeTogglePreview);
    assert!(!app.compose.show_cc_bcc);
    assert!(!app.compose.show_preview);
}

#[test]
fn compose_from_changed_switches_account_index() {
    let mut app = Inboxly::default();
    app.accounts = vec![test_account("alan@example.com"), test_account("alan@work.example.com")];
    let _ = app.update(Message::OpenCompose);
    assert_eq!(app.compose.from_account_index, 0);
    let _ = app.update(Message::ComposeFromChanged { account_index: 1 });
    assert_eq!(app.compose.from_account_index, 1);
    assert!(app.compose.dirty);
    let _ = app.update(Message::ComposeFromChanged { account_index: 99 });
    assert_eq!(app.compose.from_account_index, 1);
}

#[test]
fn close_compose_preserves_open_thread_id() {
    let mut app = Inboxly::default();
    app.open_thread_id = Some("t1".to_string());
    let _ = app.update(Message::OpenCompose);
    assert_eq!(app.active_view, ActiveView::Compose);
    let _ = app.update(Message::CloseCompose);
    assert_eq!(app.active_view, ActiveView::Inbox);
    assert_eq!(app.open_thread_id.as_deref(), Some("t1"));
}

#[test]
fn compose_discard_draft_clears_state() {
    let mut app = Inboxly::default();
    let _ = app.update(Message::OpenCompose);
    let _ = app.update(Message::ComposeSubjectChanged("dirty subject".to_string()));
    let _ = app.update(Message::ComposeAddRecipient {
        field: RecipientField::To,
        contact: Contact::new("X", "x@example.com"),
    });
    assert!(app.compose.dirty);
    assert!(!app.compose.subject.is_empty());
    let _ = app.update(Message::ComposeDiscardDraft);
    assert_eq!(app.active_view, ActiveView::Inbox);
    assert!(app.compose.draft_id.is_none());
    assert!(app.compose.subject.is_empty());
    assert!(app.compose.to.is_empty());
    assert!(!app.compose.dirty);
    assert_eq!(app.compose.save_generation, 0);
    assert_eq!(app.compose.send_state, ComposeSendState::Idle);
}

#[test]
fn compose_attachment_too_large_does_not_add() {
    let mut app = Inboxly::default();
    let _ = app.update(Message::OpenCompose);
    assert!(app.compose.attachments.is_empty());
    let _ = app.update(Message::ComposeAttachmentTooLarge);
    assert!(app.compose.attachments.is_empty());
    assert!(!app.compose.dirty);
}

#[test]
fn compose_dismiss_sent_notice_clears_state_from_sent() {
    let mut app = Inboxly::default();
    let _ = app.update(Message::OpenCompose);
    let _ = app.update(Message::ComposeSubjectChanged("Outgoing".to_string()));
    app.compose.send_state = ComposeSendState::Sent { dismiss_pending: true };
    let _ = app.update(Message::ComposeDismissSentNotice);
    assert_eq!(app.compose.send_state, ComposeSendState::Idle);
    assert!(app.compose.draft_id.is_none());
    assert!(app.compose.subject.is_empty());
    assert!(!app.compose.dirty);
    assert_eq!(app.active_view, ActiveView::Inbox);
}

#[test]
fn compose_subject_changed_blocked_during_sending() {
    let mut app = Inboxly::default();
    let _ = app.update(Message::OpenCompose);
    let _ = app.update(Message::ComposeSubjectChanged("original".to_string()));
    app.compose.send_state = ComposeSendState::Sending;
    let snapshot_generation = app.compose.save_generation;
    let _ = app.update(Message::ComposeSubjectChanged("clobbered".to_string()));
    assert_eq!(app.compose.subject, "original", "subject must not change while Sending");
    assert_eq!(app.compose.send_state, ComposeSendState::Sending, "send_state must remain Sending");
    assert_eq!(app.compose.save_generation, snapshot_generation, "save_generation must not bump while Sending");
}

// -- Behaviour around the store and the effects --

#[test]
fn mark_done_with_store_writes_queues_and_reloads() {
    let mut app = stored_app();
    let fx = app.update(Message::MarkDone("t1".into()));
    assert_eq!(fx.len(), 3);
    assert!(matches!(&fx[0], Effect::SetThreadDone { thread_id, done: true } if thread_id == "t1"));
    assert!(matches!(
        &fx[1],
        Effect::EnqueueThreadActions { thread_id, action: ThreadAction::MarkDone } if thread_id == "t1"
    ));
    assert!(matches!(fx[2], Effect::ReloadFeed));
}

#[test]
fn undo_after_mark_done_with_store_reverts_the_write() {
    let mut app = stored_app();
    let _ = app.update(Message::MarkDone("t1".into()));
    let fx = app.update(Message::Undo);
    assert!(matches!(&fx[0], Effect::SetThreadDone { thread_id, done: false } if thread_id == "t1"));
    assert!(matches!(fx[1], Effect::ReloadFeed));
    let again = app.update(Message::Undo);
    assert!(again.is_empty(), "nothing left to undo");
}

#[test]
fn toggle_pin_with_store_writes_inverse_and_undo_restores() {
    let mut app = stored_app();
    let fx = app.update(Message::TogglePin { thread_id: "t1".into(), was_pinned: true });
    assert!(matches!(&fx[0], Effect::SetThreadPinned { thread_id, pinned: false } if thread_id == "t1"));
    assert_eq!(app.undo_state.description().as_deref(), Some("Unpinned"));
    let fx = app.update(Message::Undo);
    assert!(matches!(&fx[0], Effect::SetThreadPinned { thread_id, pinned: true } if thread_id == "t1"));
}

#[test]
fn sweep_marks_only_unpinned_and_offers_undo() {
    let mut app = stored_app();
    let fx = app.update(Message::Sweep);
    assert!(matches!(fx[0], Effect::LoadSweepCandidates));
    let fx = app.update(Message::SweepCandidatesLoaded(vec![
        SweepCandidate { thread_id: "a".into(), pinned: false },
        SweepCandidate { thread_id: "b".into(), pinned: true },
        SweepCandidate { thread_id: "c".into(), pinned: false },
    ]));
    match &fx[0] {
        Effect::MarkThreadsDone(ids) => assert_eq!(ids, &vec!["a".to_string(), "c".to_string()]),
        other => panic!("unexpected effect {other:?}"),
    }
    let _ = app.update(Message::SweepCompleted(vec!["a".into(), "c".into()]));
    assert_eq!(app.undo_state.description().as_deref(), Some("2 conversations marked done"));
    let fx = app.update(Message::Undo);
    assert_eq!(fx.len(), 3);
    assert!(matches!(&fx[1], Effect::SetThreadDone { thread_id, done: false } if thread_id == "c"));
}

#[test]
fn sweep_with_nothing_unpinned_only_reloads() {
    let mut app = stored_app();
    let fx = app.update(Message::SweepCandidatesLoaded(vec![SweepCandidate { thread_id: "p".into(), pinned: true }]));
    assert_eq!(fx.len(), 1);
    assert!(matches!(fx[0], Effect::ReloadFeed));
    let _ = app.update(Message::SweepCompleted(Vec::new()));
    assert!(!app.undo_state.is_active());
}

#[test]
fn move_actions_queue_folder_moves_with_store() {
    let mut app = stored_app();
    let fx = app.update(Message::MoveTo { thread_id: "t".into(), destination: MoveDestination::Spam });
    assert!(matches!(
        &fx[0],
        Effect::EnqueueThreadActions { action: ThreadAction::MoveToFolder { to_folder }, .. } if to_folder == "Spam"
    ));
    let fx = app.update(Message::MoveTo { thread_id: "t".into(), destination: MoveDestination::Inbox });
    assert!(matches!(
        &fx[0],
        Effect::EnqueueThreadActions { action: ThreadAction::MoveToFolder { to_folder }, .. } if to_folder == "INBOX"
    ));
    let fx = app.update(Message::MarkReadState { thread_id: "t".into(), read: false });
    assert!(matches!(&fx[0], Effect::EnqueueThreadActions { action: ThreadAction::MarkUnread, .. }));
    let fx = app.update(Message::ReportSpam("t".into()));
    assert!(matches!(&fx[0], Effect::EnqueueThreadActions { action: ThreadAction::MoveToFolder { .. }, .. }));
}

#[test]
fn thread_actions_without_store_ask_for_nothing() {
    let mut app = Inboxly::default();
    assert!(app.update(Message::MoveTo { thread_id: "t".into(), destination: MoveDestination::Trash }).is_empty());
    assert!(app.update(Message::MarkDone("t".into())).is_empty());
}

#[test]
fn open_external_url_only_opens_allowed_schemes() {
    let mut app = Inboxly::default();
    let fx = app.update(Message::OpenExternalUrl("https://example.com".into()));
    assert!(matches!(&fx[0], Effect::OpenUrl(u) if u == "https://example.com"));
    let fx = app.update(Message::OpenExternalUrl("javascript:alert(1)".into()));
    assert!(fx.is_empty());
}

#[test]
fn navigate_to_settings_asks_for_settings_and_config() {
    let mut app = stored_app();
    let fx = app.update(Message::NavigateToSettings);
    assert_eq!(fx.len(), 2);
    assert!(matches!(fx[0], Effect::LoadSettings));
    assert!(matches!(fx[1], Effect::LoadConfig));
    let mut plain = Inboxly::default();
    let fx = plain.update(Message::NavigateToSettings);
    assert_eq!(fx.len(), 1);
    assert!(matches!(fx[0], Effect::LoadConfig));
}

#[test]
fn settings_loaded_parses_stored_values() {
    let mut app = Inboxly::default();
    let _ = app.update(Message::SettingsLoaded(StoredSettings {
        theme: Some("dark".into()),
        default_view: None,
        undo_timeout_secs: Some("12".into()),
        shortcuts: Some(r#"{"done":"x"}"#.into()),
        notifications_enabled: Some("false".into()),
        notification_sound: Some("yes".into()),
        notification_bundles: Some(r#"["Social","Travel"]"#.into()),
        bundles: Some(vec![bundle("b9", "Travel", "#8e24aa", 3)]),
    }));
    assert_eq!(app.settings.theme_preference, ThemePreference::Dark);
    assert_eq!(app.settings.default_view, "inbox");
    assert_eq!(app.settings.undo_timeout_secs, 12);
    assert_eq!(app.settings.shortcuts.get(ShortcutAction::Done), "x");
    assert!(!app.settings.notifications_enabled);
    assert!(app.settings.notification_sound);
    assert_eq!(app.settings.notification_bundles, vec!["Social".to_string(), "Travel".to_string()]);
    assert_eq!(app.settings.bundles.len(), 1);

    let _ = app.update(Message::SettingsLoaded(StoredSettings {
        theme: Some("purple".into()),
        default_view: Some("done".into()),
        undo_timeout_secs: Some("-3".into()),
        shortcuts: None,
        notifications_enabled: None,
        notification_sound: None,
        notification_bundles: Some("not json".into()),
        bundles: None,
    }));
    assert_eq!(app.settings.theme_preference, ThemePreference::System);
    assert_eq!(app.settings.default_view, "done");
    assert_eq!(app.settings.undo_timeout_secs, 7);
    assert!(app.settings.notifications_enabled);
    assert_eq!(app.settings.notification_bundles, vec!["all".to_string()]);
    assert_eq!(app.settings.bundles.len(), 1, "unreadable bundles keep the list");
}

#[test]
fn theme_preference_applies_and_persists() {
    let mut app = stored_app();
    let fx = app.update(Message::SetThemePreference(ThemePreference::Dark));
    assert!(app.theme.is_dark());
    assert!(matches!(&fx[0], Effect::PersistSetting { key, value } if key == "theme" && value == "dark"));
    let fx = app.update(Message::SetThemePreference(ThemePreference::System));
    assert_eq!(fx.len(), 2);
    assert!(matches!(fx[1], Effect::DetectSystemTheme));
}

#[test]
fn snooze_presets_accept_only_values_in_range() {
    let mut app = Inboxly::default();
    let fx = app.update(Message::SetSnoozeMorningHour("9".into()));
    assert_eq!(app.config.snooze.morning_hour, 9);
    assert!(matches!(fx[0], Effect::SaveConfig(_)));
    assert!(app.update(Message::SetSnoozeEveningHour("24".into())).is_empty());
    assert_eq!(app.config.snooze.evening_hour, 18);
    assert!(app.update(Message::SetSnoozeAfternoonHour("noon".into())).is_empty());
    let _ = app.update(Message::SetSnoozeWeekendDay("6".into()));
    assert_eq!(app.config.snooze.weekend_day, 6);
    assert!(app.update(Message::SetSnoozeWeekendDay("7".into())).is_empty());
}

#[test]
fn account_form_save_adds_valid_accounts_only() {
    let mut app = Inboxly::default();
    let _ = app.update(Message::AddAccountStart);
    let _ = app.update(Message::AccountFormEmailChanged("no-at-sign".into()));
    let _ = app.update(Message::AccountFormImapHostChanged("imap.x".into()));
    let _ = app.update(Message::AccountFormSmtpHostChanged("smtp.x".into()));
    assert!(app.update(Message::AccountFormSave).is_empty());
    assert!(app.config.accounts.is_empty());
    assert!(app.settings.adding_account);

    let _ = app.update(Message::AccountFormEmailChanged("me@x.org".into()));
    let fx = app.update(Message::AccountFormSave);
    assert!(matches!(fx[0], Effect::SaveConfig(_)));
    assert_eq!(app.config.accounts.len(), 1);
    assert_eq!(app.config.accounts[0].email, "me@x.org");
    assert!(!app.settings.adding_account);

    let _ = app.update(Message::EditAccountStart(0));
    assert_eq!(app.settings.editing_account_index, Some(0));
    let _ = app.update(Message::AccountFormDisplayNameChanged("Me".into()));
    let _ = app.update(Message::AccountFormSave);
    assert_eq!(app.config.accounts.len(), 1);
    assert_eq!(app.config.accounts[0].display_name, "Me");
}

#[test]
fn remove_account_never_removes_active_and_shifts_index() {
    let mut app = Inboxly::default();
    app.config.accounts = vec![
        make_test_account("a@x", "A"),
        make_test_account("b@x", "B"),
        make_test_account("c@x", "C"),
    ];
    app.active_account_index = 2;
    assert!(app.update(Message::RemoveAccountExecute(2)).is_empty());
    assert_eq!(app.config.accounts.len(), 3);
    let fx = app.update(Message::RemoveAccountExecute(0));
    assert!(matches!(fx[0], Effect::SaveConfig(_)));
    assert_eq!(app.config.accounts.len(), 2);
    assert_eq!(app.active_account_index, 1);
    assert_eq!(app.config.accounts[app.active_account_index].email, "c@x");
    assert!(app.update(Message::RemoveAccountExecute(9)).is_empty());
}

#[test]
fn data_tab_measures_and_formats_sizes() {
    let mut app = stored_app();
    let fx = app.update(Message::SettingsTabChanged(SettingsTab::DataStorage));
    assert!(matches!(fx[0], Effect::MeasureStorage));
    let _ = app.update(Message::StorageMeasured {
        sizes: Some(StorageSizes { db_bytes: 1536, index_bytes: 0, maildir_bytes: 3 * 1024 * 1024 }),
        last_sync: None,
    });
    assert_eq!(app.settings.db_size_display, "1.5 KB");
    assert_eq!(app.settings.index_size_display, "0 B");
    assert_eq!(app.settings.maildir_size_display, "3.0 MB");
    assert_eq!(app.settings.last_sync_display, "Never");
}

#[test]
fn cache_clear_outcomes_set_status() {
    let mut app = Inboxly::default();
    assert!(matches!(app.update(Message::ClearCache)[0], Effect::ClearCache));
    let _ = app.update(Message::CacheCleared(CacheClearOutcome::Cleared));
    assert_eq!(app.settings.data_action_status.as_deref(), Some("Cache cleared"));
    let _ = app.update(Message::CacheCleared(CacheClearOutcome::Failed("denied".into())));
    assert_eq!(app.settings.data_action_status.as_deref(), Some("Failed to clear cache: denied"));
    let _ = app.update(Message::CacheCleared(CacheClearOutcome::Unavailable));
    assert_eq!(app.settings.data_action_status.as_deref(), Some("Failed to clear cache: denied"));
    let _ = app.update(Message::RebuildSearchIndex);
    assert_eq!(app.settings.data_action_status.as_deref(), Some("Rebuilding search index..."));
    let _ = app.update(Message::ExportData);
    assert_eq!(app.settings.data_action_status.as_deref(), Some("Coming soon"));
}

#[test]
fn persisted_settings_carry_values() {
    let mut app = stored_app();
    let fx = app.update(Message::SetUndoTimeout(15));
    assert!(matches!(&fx[0], Effect::PersistSetting { key, value } if key == "undo_timeout_secs" && value == "15"));
    let fx = app.update(Message::ToggleNotifications);
    assert!(matches!(&fx[0], Effect::PersistSetting { value, .. } if value == "false"));
    let fx = app.update(Message::SetNotificationBundles(vec!["Social".into()]));
    assert!(matches!(&fx[0], Effect::PersistSetting { key, value } if key == "notification_bundles" && value == r#"["Social"]"#));
    let fx = app.update(Message::SetShortcut { action: ShortcutAction::Pin, binding: "p".into() });
    match &fx[0] {
        Effect::PersistSetting { key, value } => {
            assert_eq!(key, "shortcuts");
            assert_eq!(value, r#"{"pin":"p"}"#);
        }
        other => panic!("unexpected effect {other:?}"),
    }
}

#[test]
fn feed_loaded_prunes_expanded_bundles() {
    let mut app = Inboxly::default();
    let _ = app.update(Message::ToggleBundleExpand("gone".into()));
    assert_eq!(app.expanded_bundles.len(), 1);
    let _ = app.update(Message::FeedLoaded(Some(Vec::new())));
    assert!(app.expanded_bundles.is_empty());
}

#[test]
fn autosave_tick_clears_dirty_only_for_current_generation() {
    let mut app = Inboxly::default();
    let _ = app.update(Message::OpenCompose);
    let _ = app.update(Message::ComposeSubjectChanged("a".into()));
    let stale = app.compose.save_generation;
    let _ = app.update(Message::ComposeBodyChanged("b".into()));
    let _ = app.update(Message::ComposeAutoSaveTick { generation: stale });
    assert!(app.compose.dirty);
    let current = app.compose.save_generation;
    let _ = app.update(Message::ComposeAutoSaveTick { generation: current });
    assert!(!app.compose.dirty);
}

#[test]
fn send_flow_goes_through_sending_sent_and_failed() {
    let mut app = Inboxly::default();
    let _ = app.update(Message::OpenCompose);
    let _ = app.update(Message::ComposeSendDraft);
    assert_eq!(app.compose.send_state, ComposeSendState::Idle, "cannot send without recipient and subject");
    let _ = app.update(Message::ComposeAddRecipient {
        field: RecipientField::To,
        contact: Contact::new("A", "a@x"),
    });
    let _ = app.update(Message::ComposeSubjectChanged("S".into()));
    let _ = app.update(Message::ComposeSendDraft);
    assert_eq!(app.compose.send_state, ComposeSendState::Sending);
    let _ = app.update(Message::ComposeAttachmentAdded(AttachmentDraft {
        filename: "f.txt".into(),
        mime_type: "text/plain".into(),
        size_bytes: 3,
        path: "/tmp/f.txt".into(),
    }));
    assert!(app.compose.attachments.is_empty(), "no edits while sending");
    let _ = app.update(Message::ComposeSendComplete { success: false, error: None });
    assert_eq!(app.compose.send_state, ComposeSendState::Failed { error: "send failed".into() });
    let _ = app.update(Message::ComposeDismissSentNotice);
    assert_eq!(app.active_view, ActiveView::Compose, "dismiss only works from Sent");
}

#[test]
fn title_names_the_active_view() {
    let mut app = Inboxly::default();
    assert_eq!(app.title(), "Inboxly -- Inbox");
    let _ = app.update(Message::NavigateToSettings);
    assert_eq!(app.title(), "Inboxly -- Settings");
}

#[test]
fn new_follows_system_scheme() {
    assert!(Inboxly::new(Ok(SystemColorScheme::Dark)).theme.is_dark());
    assert!(!Inboxly::new(Ok(SystemColorScheme::NoPreference)).theme.is_dark());
}

#[test]
fn open_compose_draft_id_is_a_version_4_uuid() {
    let mut app = Inboxly::default();
    app.accounts = vec![test_account("alan@example.com")];
    let _ = app.update(Message::OpenCompose);
    let id: Vec<char> = app.compose.draft_id.clone().unwrap().chars().collect();
    assert_eq!(id.len(), 36);
    for (i, c) in id.iter().enumerate() {
        if [8, 13, 18, 23].contains(&i) {
            assert_eq!(*c, '-');
        } else {
            assert!(c.is_ascii_digit() || ('a'..='f').contains(c));
        }
    }
    assert_eq!(id[14], '4');
    assert!(['8', '9', 'a', 'b'].contains(&id[19]));
}
