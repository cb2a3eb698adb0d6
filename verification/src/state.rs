//! Sub-states of the application: the thread menus, the snooze picker and
//! the settings panel.
//!
//! Popup anchor positions are screen coordinates and belong to the
//! rendering layer; the state here only records which thread a popup is
//! open for.

use vstd::prelude::*;

use crate::config::{AccountConfig, BundleRow, is_empty_account_form, new_empty_account_form};
use crate::keyboard::{ShortcutAction, ShortcutMap, default_binding};
use crate::settings::SettingsTab;
use crate::text::owned;
use crate::theme::ThemePreference;

verus! {

/// State backing the overflow (three-dot) and right-click context menus.
///
/// Both menus share `thread_sender` because only one of them is open at a
/// time.
#[derive(Debug, Clone, PartialEq, Eq)]
pub struct MenuState {
    /// Thread whose overflow menu is open.
    pub overflow_thread: Option<String>,
    /// Thread whose context menu is open.
    pub context_thread: Option<String>,
    /// Sender address of the thread whose menu is open.
    pub thread_sender: Option<String>,
}

/// No menu is open.
pub open spec fn menus_closed(m: MenuState) -> bool {
    m.overflow_thread is None && m.context_thread is None && m.thread_sender is None
}

impl MenuState {
    /// Create empty menu state.
    pub fn new() -> (m: Self)
        ensures
            menus_closed(m),
    {
        MenuState { overflow_thread: None, context_thread: None, thread_sender: None }
    }

    /// Clear both menus and their shared sender field.
    pub fn close(&mut self)
        ensures
            menus_closed(*final(self)),
    {
        self.overflow_thread = None;
        self.context_thread = None;
        self.thread_sender = None;
    }
}

impl Default for MenuState {
    fn default() -> (m: Self)
        ensures
            menus_closed(m),
    {
        Self::new()
    }
}

/// State backing the snooze-picker popup.
#[derive(Debug, Clone, PartialEq, Eq)]
pub struct SnoozeState {
    /// Thread whose snooze picker is open.
    pub picker_thread: Option<String>,
}

impl SnoozeState {
    /// Create empty snooze state.
    pub fn new() -> (s: Self)
        ensures
            s.picker_thread is None,
    {
        SnoozeState { picker_thread: None }
    }
}

impl Default for SnoozeState {
    fn default() -> (s: Self)
        ensures
            s.picker_thread is None,
    {
        Self::new()
    }
}

/// State backing the settings panel.
#[derive(Debug, Clone)]
pub struct SettingsState {
    /// Active settings tab.
    pub tab: SettingsTab,
    /// Whether the nav drawer was open before entering settings.
    pub drawer_was_open: bool,
    /// Current theme preference.
    pub theme_preference: ThemePreference,
    /// Default view preference ("inbox", "snoozed", "done").
    pub default_view: String,
    /// Undo timeout in seconds.
    pub undo_timeout_secs: u32,
    /// Index of the account being edited, if an edit form is open.
    pub editing_account_index: Option<usize>,
    /// Scratch account for the add/edit form.
    pub account_form: AccountConfig,
    /// Whether the form adds a new account (rather than editing one).
    pub adding_account: bool,
    /// Index of the account awaiting removal confirmation.
    pub removing_account_index: Option<usize>,
    /// Database size shown on the Data & Storage tab.
    pub db_size_display: String,
    /// Search index size shown on the Data & Storage tab.
    pub index_size_display: String,
    /// Maildir size shown on the Data & Storage tab.
    pub maildir_size_display: String,
    /// Last full sync shown on the Data & Storage tab.
    pub last_sync_display: String,
    /// Status message shown after a data action.
    pub data_action_status: Option<String>,
    /// Keyboard shortcut bindings.
    pub shortcuts: ShortcutMap,
    /// Action whose new binding is being captured.
    pub capturing_shortcut: Option<ShortcutAction>,
    /// Whether desktop notifications are enabled.
    pub notifications_enabled: bool,
    /// Whether notification sound is enabled.
    pub notification_sound: bool,
    /// Which bundles trigger notifications (`["all"]` = all bundles).
    pub notification_bundles: Vec<String>,
    /// Bundles listed on the Bundles tab.
    pub bundles: Vec<BundleRow>,
    /// Bundle whose throttle popup is open.
    pub throttle_popup_bundle_id: Option<String>,
}

/// The view a fresh install starts in, as stored in the settings.
pub open spec fn default_view_text() -> Seq<char> {
    "inbox"@
}

/// Undo timeout of a fresh install, in seconds.
pub const DEFAULT_UNDO_TIMEOUT_SECS: u32 = 7;

/// The settings panel as a fresh install shows it.
pub open spec fn is_initial_settings(s: SettingsState) -> bool {
    &&& s.tab == SettingsTab::General
    &&& s.drawer_was_open
    &&& s.theme_preference == ThemePreference::System
    &&& s.default_view@ == default_view_text()
    &&& s.undo_timeout_secs == DEFAULT_UNDO_TIMEOUT_SECS
    &&& s.editing_account_index is None
    &&& is_empty_account_form(s.account_form)
    &&& !s.adding_account
    &&& s.removing_account_index is None
    &&& s.db_size_display@.len() == 0
    &&& s.index_size_display@.len() == 0
    &&& s.maildir_size_display@.len() == 0
    &&& s.last_sync_display@ == "Never"@
    &&& s.data_action_status is None
    &&& (forall|a: ShortcutAction| #[trigger] s.shortcuts.binding(a) == default_binding(a))
    &&& s.capturing_shortcut is None
    &&& s.notifications_enabled
    &&& s.notification_sound
    &&& s.notification_bundles@.len() == 1
    &&& s.notification_bundles@[0]@ == "all"@
    &&& s.bundles@.len() == 0
    &&& s.throttle_popup_bundle_id is None
}

impl SettingsState {
    /// Create settings state with its defaults.
    pub fn new() -> (s: Self)
        ensures
            is_initial_settings(s),
    {
        let mut bundles_all: Vec<String> = Vec::new();
        bundles_all.push(owned("all"));
        SettingsState {
            tab: SettingsTab::General,
            drawer_was_open: true,
            theme_preference: ThemePreference::System,
            default_view: owned("inbox"),
            undo_timeout_secs: DEFAULT_UNDO_TIMEOUT_SECS,
            editing_account_index: None,
            account_form: new_empty_account_form(),
            adding_account: false,
            removing_account_index: None,
            db_size_display: String::new(),
            index_size_display: String::new(),
            maildir_size_display: String::new(),
            last_sync_display: owned("Never"),
            data_action_status: None,
            shortcuts: ShortcutMap::defaults(),
            capturing_shortcut: None,
            notifications_enabled: true,
            notification_sound: true,
            notification_bundles: bundles_all,
            bundles: Vec::new(),
            throttle_popup_bundle_id: None,
        }
    }
}

impl Default for SettingsState {
    fn default() -> (s: Self)
        ensures
            is_initial_settings(s),
    {
        Self::new()
    }
}

} // verus!
