//! The application state machine.
//!
//! `Inboxly::update` takes one message and returns the work it needs done
//! outside the state (store reads and writes, configuration saves, opening
//! a link, detecting the system theme). The caller performs each effect
//! and feeds any answer back in as a further message.

pub mod drafts;
pub mod laws;
pub mod setup;

use vstd::prelude::*;

use crate::compose::{
    AttachmentDraft, ComposeMode, ComposeSendState, ComposeState, Contact, can_send_spec, is_blank,
};
use crate::config::{
    AccountConfig, AppConfig, AuthMethod, BundleRow, ConfigView, SnoozePresets,
    account_form_is_valid, account_form_valid, auth_method_of,
};
use crate::feed::{FeedEntry, FeedSection};
use crate::json::{json_string_array, parse_string_array, string_array_json, string_array_to_json, texts};
use crate::keyboard::{
    ShortcutAction, ShortcutMap, default_binding, shortcut_reset, shortcut_set,
};
use crate::lists::{
    contains_text, filter_texts, find_row, first_row, has_text, insert_row, remove_text, sort_rows,
    sort_rows_exec, without_text,
};
use crate::nav::{NavBundleCategory, NavTarget, default_bundle_categories, default_category_names};
use crate::settings::{SettingsTab, format_size, size_text};
use crate::shortcut_json::{is_overrides_json, json_override};
use crate::state::{MenuState, SettingsState, SnoozeState, is_initial_settings, menus_closed};
use crate::text::{debug_quoted, debug_text, decimal, decimal_string, owned, parse_u16, parse_u32, parse_u8, parse_unsigned, str_eq};
use crate::theme::{
    ActiveView, SystemColorScheme, SystemThemeError, ThemeConfig, ThemePreference,
    preference_of_setting, preference_text, system_wants_dark,
};
use crate::theme::color::{dark_colors, light_colors};
use crate::undo::{UndoAction, UndoState};

verus! {

/// IMAP folder destinations for the "Move to..." action.
#[derive(Debug, Clone, Copy, PartialEq, Eq, Structural)]
pub enum MoveDestination {
    Inbox,
    Trash,
    Spam,
}

/// Which recipient list (To/Cc/Bcc) a compose recipient action targets.
#[derive(Debug, Clone, Copy, PartialEq, Eq, Structural)]
pub enum RecipientField {
    /// To header.
    To,
    /// Cc header.
    Cc,
    /// Bcc header (not visible to other recipients).
    Bcc,
}

/// The offline IMAP action queued for every email of a thread.
#[derive(Debug)]
pub enum ThreadAction {
    MarkDone,
    MoveToTrash,
    MoveToFolder { to_folder: String },
    MarkRead,
    MarkUnread,
}

/// A thread action with its folder name as text.
pub enum ThreadActionView {
    MarkDone,
    MoveToTrash,
    MoveToFolder { to_folder: Seq<char> },
    MarkRead,
    MarkUnread,
}

impl View for ThreadAction {
    type V = ThreadActionView;

    open spec fn view(&self) -> ThreadActionView {
        match self {
            ThreadAction::MarkDone => ThreadActionView::MarkDone,
            ThreadAction::MoveToTrash => ThreadActionView::MoveToTrash,
            ThreadAction::MoveToFolder { to_folder } => ThreadActionView::MoveToFolder {
                to_folder: to_folder@,
            },
            ThreadAction::MarkRead => ThreadActionView::MarkRead,
            ThreadAction::MarkUnread => ThreadActionView::MarkUnread,
        }
    }
}

/// An inbox thread offered to a sweep, with its pin state.
#[derive(Debug, Clone)]
pub struct SweepCandidate {
    pub thread_id: String,
    pub pinned: bool,
}

/// Settings values as read from the settings store; `None` where a value
/// is absent or could not be read.
#[derive(Debug)]
pub struct StoredSettings {
    pub theme: Option<String>,
    pub default_view: Option<String>,
    pub undo_timeout_secs: Option<String>,
    /// JSON object of the shortcut overrides.
    pub shortcuts: Option<String>,
    pub notifications_enabled: Option<String>,
    pub notification_sound: Option<String>,
    /// JSON array of bundle names.
    pub notification_bundles: Option<String>,
    pub bundles: Option<Vec<BundleRow>>,
}

/// Sizes measured on disk for the Data & Storage tab.
#[derive(Debug, Clone, Copy)]
pub struct StorageSizes {
    pub db_bytes: u64,
    pub index_bytes: u64,
    pub maildir_bytes: u64,
}

/// How clearing the cache went.
#[derive(Debug, Clone)]
pub enum CacheClearOutcome {
    /// The cache directory was removed and recreated.
    Cleared,
    /// There was no cache directory.
    NothingToClear,
    /// Removing the cache failed with this error text.
    Failed(String),
    /// The configuration or data paths could not be resolved.
    Unavailable,
}

/// Work the state machine asks its caller to do.
#[derive(Debug)]
pub enum Effect {
    /// Rebuild the feed from the store; answer with `FeedLoaded`.
    ReloadFeed,
    /// Ensure the thread has a state row and set its done flag.
    SetThreadDone { thread_id: String, done: bool },
    /// Ensure the thread has a state row and set its pinned flag.
    SetThreadPinned { thread_id: String, pinned: bool },
    /// Ensure the thread has a state row and snooze it until the timestamp.
    SetThreadSnoozed { thread_id: String, until: i64 },
    /// Queue the action for every email of the thread, in one transaction.
    EnqueueThreadActions { thread_id: String, action: ThreadAction },
    /// Read the inbox threads; answer with `SweepCandidatesLoaded`.
    LoadSweepCandidates,
    /// Mark the threads done; answer with `SweepCompleted` listing those marked.
    MarkThreadsDone(Vec<String>),
    /// Open the URL in the system browser.
    OpenUrl(String),
    /// Read the settings store; answer with `SettingsLoaded`.
    LoadSettings,
    /// Load the configuration file; answer with `ConfigLoaded` if it loads.
    LoadConfig,
    /// Save the configuration file.
    SaveConfig(AppConfig),
    /// Write a key of the settings store.
    PersistSetting { key: String, value: String },
    /// Write a bundle row to the settings store.
    UpdateBundleRow(BundleRow),
    /// Measure the data directories; answer with `StorageMeasured`.
    MeasureStorage,
    /// Clear the cache directory; answer with `CacheCleared`.
    ClearCache,
    /// Query the system colour scheme; answer with `ThemeChanged`.
    DetectSystemTheme,
}

/// An effect with its texts and lists as plain values.
pub enum EffectView {
    ReloadFeed,
    SetThreadDone { thread_id: Seq<char>, done: bool },
    SetThreadPinned { thread_id: Seq<char>, pinned: bool },
    SetThreadSnoozed { thread_id: Seq<char>, until: i64 },
    EnqueueThreadActions { thread_id: Seq<char>, action: ThreadActionView },
    LoadSweepCandidates,
    MarkThreadsDone(Seq<Seq<char>>),
    OpenUrl(Seq<char>),
    LoadSettings,
    LoadConfig,
    SaveConfig(ConfigView),
    PersistSetting { key: Seq<char>, value: Seq<char> },
    UpdateBundleRow(BundleRow),
    MeasureStorage,
    ClearCache,
    DetectSystemTheme,
}

impl View for Effect {
    type V = EffectView;

    open spec fn view(&self) -> EffectView {
        match self {
            Effect::ReloadFeed => EffectView::ReloadFeed,
            Effect::SetThreadDone { thread_id, done } => EffectView::SetThreadDone {
                thread_id: thread_id@,
                done: *done,
            },
            Effect::SetThreadPinned { thread_id, pinned } => EffectView::SetThreadPinned {
                thread_id: thread_id@,
                pinned: *pinned,
            },
            Effect::SetThreadSnoozed { thread_id, until } => EffectView::SetThreadSnoozed {
                thread_id: thread_id@,
                until: *until,
            },
            Effect::EnqueueThreadActions { thread_id, action } => EffectView::EnqueueThreadActions {
                thread_id: thread_id@,
                action: action@,
            },
            Effect::LoadSweepCandidates => EffectView::LoadSweepCandidates,
            Effect::MarkThreadsDone(ids) => EffectView::MarkThreadsDone(texts(ids@)),
            Effect::OpenUrl(u) => EffectView::OpenUrl(u@),
            Effect::LoadSettings => EffectView::LoadSettings,
            Effect::LoadConfig => EffectView::LoadConfig,
            Effect::SaveConfig(c) => EffectView::SaveConfig(c@),
            Effect::PersistSetting { key, value } => EffectView::PersistSetting {
                key: key@,
                value: value@,
            },
            Effect::UpdateBundleRow(b) => EffectView::UpdateBundleRow(*b),
            Effect::MeasureStorage => EffectView::MeasureStorage,
            Effect::ClearCache => EffectView::ClearCache,
            Effect::DetectSystemTheme => EffectView::DetectSystemTheme,
        }
    }
}

/// The effects as plain values.
pub open spec fn fxv(fx: Seq<Effect>) -> Seq<EffectView> {
    fx.map_values(|e: Effect| e@)
}

/// Append the effects of `b` to `a`.
fn append_effects(a: &mut Vec<Effect>, b: Vec<Effect>)
    ensures
        fxv(final(a)@) == fxv(old(a)@) + fxv(b@),
{
    let ghost a0 = a@;
    let ghost b0 = b@;
    let mut b = b;
    a.append(&mut b);
    assert(a@ == a0 + b0);
    assert(fxv(a@) =~= fxv(a0) + fxv(b0));
}

/// All messages the application can receive: user actions, and the
/// answers to the effects it asked for.
#[derive(Debug)]
pub enum Message {
    /// User clicked a nav item.
    Navigate(NavTarget),
    /// User toggled the hamburger menu.
    ToggleDrawer,
    /// Search bar text changed (search is not wired yet).
    SearchChanged(String),
    /// User toggled the theme (light <-> dark).
    ThemeToggled,
    /// A new theme was resolved (system detection or preference).
    ThemeChanged(ThemeConfig),
    /// Reload the inbox feed from the store.
    ReloadFeed,
    /// The store answered a feed reload; `None` when it failed.
    FeedLoaded(Option<Vec<FeedSection>>),
    /// Mark a thread as Done (archive).
    MarkDone(String),
    /// Toggle pin state for a thread; `was_pinned` is its stored pin
    /// state (false when there is no store or it could not be read).
    TogglePin { thread_id: String, was_pinned: bool },
    /// Sweep: mark all unpinned threads in the inbox as Done.
    Sweep,
    /// The inbox threads a sweep may mark done.
    SweepCandidatesLoaded(Vec<SweepCandidate>),
    /// The threads a sweep did mark done.
    SweepCompleted(Vec<String>),
    /// User pressed Undo on the snackbar.
    Undo,
    /// Undo timer expired -- commit the action.
    UndoExpired,
    /// Snooze a thread until the given UTC timestamp (seconds).
    SnoozeThread { thread_id: String, until: i64 },
    /// Open the overflow (three-dot) menu for a thread.
    OpenOverflowMenu { thread_id: String, sender_address: String },
    /// Close the overflow menu.
    CloseOverflowMenu,
    /// Open the right-click context menu for a thread.
    OpenContextMenu { thread_id: String, sender_address: String },
    /// Close the right-click context menu.
    CloseContextMenu,
    /// Open the full thread detail view for a thread ID.
    OpenThread(String),
    /// Close the open thread and return to the inbox feed.
    CloseThread,
    /// Open an external URL in the user's system browser.
    OpenExternalUrl(String),
    /// Toggle the account switcher dropdown in the nav drawer.
    ToggleAccountSwitcher,
    /// Switch to the account at the given index.
    SwitchAccount(usize),
    /// Navigate to Settings view (gear icon).
    NavigateToSettings,
    /// The settings store answered a settings load.
    SettingsLoaded(StoredSettings),
    /// The configuration file loaded.
    ConfigLoaded(AppConfig),
    /// Navigate back from Settings to the previous view.
    NavigateBack,
    /// Settings sidebar tab clicked.
    SettingsTabChanged(SettingsTab),
    /// Theme chip button clicked.
    SetThemePreference(ThemePreference),
    /// Default view dropdown changed.
    SetDefaultView(String),
    /// Undo timeout dropdown changed.
    SetUndoTimeout(u32),
    /// Snooze morning hour changed.
    SetSnoozeMorningHour(String),
    /// Snooze afternoon hour changed.
    SetSnoozeAfternoonHour(String),
    /// Snooze evening hour changed.
    SetSnoozeEveningHour(String),
    /// Snooze weekend day changed.
    SetSnoozeWeekendDay(String),
    /// Open the add-account form.
    AddAccountStart,
    /// Open the edit form for the account at index.
    EditAccountStart(usize),
    /// Cancel the add/edit form.
    AccountFormCancel,
    /// Save the add/edit form.
    AccountFormSave,
    AccountFormEmailChanged(String),
    AccountFormDisplayNameChanged(String),
    AccountFormProviderChanged(String),
    AccountFormAuthMethodChanged(String),
    AccountFormImapHostChanged(String),
    AccountFormImapPortChanged(String),
    AccountFormSmtpHostChanged(String),
    AccountFormSmtpPortChanged(String),
    /// Show removal confirmation for the account at index.
    RemoveAccountConfirm(usize),
    /// Dismiss removal confirmation.
    RemoveAccountCancel,
    /// Execute account removal.
    RemoveAccountExecute(usize),
    /// Clear cache button pressed.
    ClearCache,
    /// The cache clear finished.
    CacheCleared(CacheClearOutcome),
    /// Rebuild search index button pressed.
    RebuildSearchIndex,
    /// Export data button pressed.
    ExportData,
    /// Data sizes calculated elsewhere, already formatted.
    DataSizesLoaded { db_size: String, index_size: String, maildir_size: String, last_sync: String },
    /// The data directories were measured (`None`: paths unavailable); the
    /// last full sync as stored, if readable.
    StorageMeasured { sizes: Option<StorageSizes>, last_sync: Option<String> },
    /// Shortcuts loaded from store.
    ShortcutsLoaded(ShortcutMap),
    /// User set a new binding for an action.
    SetShortcut { action: ShortcutAction, binding: String },
    /// Reset an action to its default binding.
    ResetShortcut(ShortcutAction),
    /// Begin capturing a new key for the given action.
    StartCapture(ShortcutAction),
    /// Cancel capture mode.
    CancelCapture,
    /// Toggle desktop notifications on/off.
    ToggleNotifications,
    /// Toggle notification sound on/off.
    ToggleNotificationSound,
    /// Set which bundles trigger notifications.
    SetNotificationBundles(Vec<String>),
    /// Bundles loaded from store.
    BundlesLoaded(Vec<BundleRow>),
    /// Toggle a bundle's visibility (visible/hidden).
    ToggleBundleVisibility(String),
    /// Set a bundle's throttle JSON.
    SetBundleThrottle { bundle_id: String, throttle_json: String },
    /// Reorder bundles by their IDs (new order).
    ReorderBundles(Vec<String>),
    /// Open/close the throttle configuration popup.
    ToggleThrottlePopup(Option<String>),
    /// Move thread to a folder.
    MoveTo { thread_id: String, destination: MoveDestination },
    /// Mark thread as read or unread.
    MarkReadState { thread_id: String, read: bool },
    /// Mute a thread.
    MuteThread(String),
    /// Reply to a thread.
    Reply(String),
    /// Reply all to a thread.
    ReplyAll(String),
    /// Forward a thread.
    Forward(String),
    /// Add thread to a bundle category.
    AddToBundle { thread_id: String, category: String },
    /// Create a rule from sender (not available yet).
    CreateRuleFromSender(String),
    /// Block the sender.
    BlockSender { thread_id: String, sender_address: String },
    /// Report thread as spam.
    ReportSpam(String),
    /// Toggle the expanded/collapsed state of a bundle row in the inbox feed.
    ToggleBundleExpand(String),
    /// Open the snooze picker for a thread.
    OpenSnoozePicker { thread_id: String },
    /// Close the snooze picker.
    CloseSnoozePicker,
    /// Open the compose view with a fresh blank draft.
    OpenCompose,
    /// Open compose in reply mode (not available yet).
    OpenComposeReply { thread_id: String, mode: ComposeMode },
    /// Close the compose view without sending; the draft stays.
    CloseCompose,
    /// Set the subject line.
    ComposeSubjectChanged(String),
    /// Set the To input field text.
    ComposeToInputChanged(String),
    /// Set the Cc input field text.
    ComposeCcInputChanged(String),
    /// Set the Bcc input field text.
    ComposeBccInputChanged(String),
    /// Add a contact to a recipient list.
    ComposeAddRecipient { field: RecipientField, contact: Contact },
    /// Remove a recipient by index.
    ComposeRemoveRecipient { field: RecipientField, index: usize },
    /// Set the body Markdown source.
    ComposeBodyChanged(String),
    /// Toggle Cc/Bcc row visibility.
    ComposeToggleCcBcc,
    /// Toggle between body textarea and Markdown preview.
    ComposeTogglePreview,
    /// Switch the FROM account.
    ComposeFromChanged { account_index: usize },
    /// User clicked the attach button (the file picker runs outside).
    ComposeAttachFile,
    /// A picked attachment.
    ComposeAttachmentAdded(AttachmentDraft),
    /// The picked file would push the attachments over the size limit.
    ComposeAttachmentTooLarge,
    /// Remove an attachment by index.
    ComposeRemoveAttachment(usize),
    /// User clicked Save (the save runs outside).
    ComposeSaveDraft,
    /// An auto-save finished; `generation` is the save generation it saved.
    ComposeAutoSaveTick { generation: u64 },
    /// User clicked Send.
    ComposeSendDraft,
    /// The send finished.
    ComposeSendComplete { success: bool, error: Option<String> },
    /// User dismissed the "Sent" notice.
    ComposeDismissSentNotice,
    /// User clicked Discard.
    ComposeDiscardDraft,
}

/// Top-level application state.
pub struct Inboxly {
    /// Currently active primary view (drives toolbar colour).
    pub active_view: ActiveView,
    /// View to return to when leaving Settings or Compose.
    pub previous_view: ActiveView,
    /// Currently selected nav target (a primary view, folder, or bundle).
    pub active_nav: NavTarget,
    /// Whether the nav drawer is visible.
    pub drawer_open: bool,
    /// Bundle categories shown in the nav drawer.
    pub bundle_categories: Vec<NavBundleCategory>,
    /// Configured email accounts.
    pub accounts: Vec<AccountConfig>,
    /// Index of the currently active account.
    pub active_account_index: usize,
    /// Whether the account switcher dropdown is expanded.
    pub account_switcher_open: bool,
    /// Active theme.
    pub theme: ThemeConfig,
    /// Whether a thread and settings store is attached; store work is only
    /// asked for when one is.
    pub store_attached: bool,
    /// Pre-built feed sections for the inbox view.
    pub feed_sections: Vec<FeedSection>,
    /// Which thread the user wants opened.
    pub open_thread_id: Option<String>,
    /// Undo state for timed undo of inbox actions.
    pub undo_state: UndoState,
    /// Overflow + right-click context menu state.
    pub menus: MenuState,
    /// Loaded configuration (accounts and snooze presets).
    pub config: AppConfig,
    /// Settings panel state.
    pub settings: SettingsState,
    /// Bundle IDs currently expanded in the inbox feed.
    pub expanded_bundles: Vec<String>,
    /// Snooze picker state.
    pub snooze: SnoozeState,
    /// In-progress compose draft state.
    pub compose: ComposeState,
}

/// Whether the entry is a bundle with the given id.
pub open spec fn entry_is_bundle(e: FeedEntry, id: Seq<char>) -> bool {
    match e {
        FeedEntry::Bundle(b) => b.bundle_id@ == id,
        FeedEntry::Thread(_) => false,
    }
}

/// Whether some section of the feed holds a bundle with the given id.
pub open spec fn feed_has_bundle(secs: Seq<FeedSection>, id: Seq<char>) -> bool {
    exists|i: int, j: int|
        #![trigger secs[i].items@[j]]
        0 <= i < secs.len() && 0 <= j < secs[i].items@.len() && entry_is_bundle(
            secs[i].items@[j],
            id,
        )
}

/// The expanded bundle ids that are still bundles of the feed, in order.
pub open spec fn pruned(expanded: Seq<String>, secs: Seq<FeedSection>) -> Seq<String> {
    filter_texts(expanded, |s: Seq<char>| feed_has_bundle(secs, s))
}

/// What a feed reload does to `mid`: with a store it asks the store for
/// the feed; without one it keeps the sections and forgets expanded
/// bundles that are no longer in them.
pub open spec fn reloaded(mid: Inboxly, post: Inboxly, fv: Seq<EffectView>) -> bool {
    if mid.store_attached {
        post == mid && fv == seq![EffectView::ReloadFeed]
    } else {
        &&& post == (Inboxly { expanded_bundles: post.expanded_bundles, ..mid })
        &&& post.expanded_bundles@ == pruned(mid.expanded_bundles@, mid.feed_sections@)
        &&& fv.len() == 0
    }
}

/// The effects are `first` followed by those of a reload of `mid` that
/// gives `post`.
pub open spec fn then_reload(
    first: Seq<EffectView>,
    mid: Inboxly,
    post: Inboxly,
    fv: Seq<EffectView>,
) -> bool {
    &&& fv.len() >= first.len()
    &&& fv.subrange(0, first.len() as int) == first
    &&& reloaded(mid, post, fv.subrange(first.len() as int, fv.len() as int))
}

/// The effects asked of the store, or none without a store.
pub open spec fn store_fx(store: bool, fv: Seq<EffectView>) -> Seq<EffectView> {
    if store {
        fv
    } else {
        seq![]
    }
}

/// `b` is `a` after pushing `act`.
pub open spec fn undo_pushed(a: UndoState, b: UndoState, act: UndoAction) -> bool {
    b.pending() == Some(act) && b.timed() && b.gen() == a.gen().wrapping_add(1)
}

/// `b` is `a` emptied, its generation kept.
pub open spec fn undo_cleared(a: UndoState, b: UndoState) -> bool {
    b.pending() is None && !b.timed() && b.gen() == a.gen()
}

proof fn lemma_split_effects(a: Seq<EffectView>, b: Seq<EffectView>)
    ensures
        (a + b).subrange(0, a.len() as int) == a,
        (a + b).subrange(a.len() as int, (a + b).len() as int) == b,
{
    assert((a + b).subrange(0, a.len() as int) =~= a);
    assert((a + b).subrange(a.len() as int, (a + b).len() as int) =~= b);
}

/// Whether the entry is a bundle with the given id.
fn entry_has_bundle_id(e: &FeedEntry, id: &str) -> (r: bool)
    ensures
        r == entry_is_bundle(*e, id@),
{
    match e {
        FeedEntry::Bundle(b) => str_eq(b.bundle_id.as_str(), id),
        FeedEntry::Thread(_) => false,
    }
}

/// Whether some section of the feed holds a bundle with the given id.
fn feed_contains_bundle(secs: &Vec<FeedSection>, id: &str) -> (r: bool)
    ensures
        r == feed_has_bundle(secs@, id@),
{
    let mut i: usize = 0;
    while i < secs.len()
        invariant
            i <= secs@.len(),
            forall|a: int, b: int|
                #![trigger secs@[a].items@[b]]
                0 <= a < i && 0 <= b < secs@[a].items@.len() ==> !entry_is_bundle(
                    secs@[a].items@[b],
                    id@,
                ),
        decreases secs.len() - i,
    {
        let items = &secs[i].items;
        let mut j: usize = 0;
        while j < items.len()
            invariant
                i < secs@.len(),
                items@ == secs@[i as int].items@,
                j <= items@.len(),
                forall|b: int|
                    #![trigger secs@[i as int].items@[b]]
                    0 <= b < j ==> !entry_is_bundle(secs@[i as int].items@[b], id@),
            decreases items.len() - j,
        {
            if entry_has_bundle_id(&items[j], id) {
                assert(entry_is_bundle(secs@[i as int].items@[j as int], id@));
                return true;
            }
            j = j + 1;
        }
        i = i + 1;
    }
    false
}

impl Inboxly {
    /// Forget expanded bundles that are no longer in the feed.
    fn prune_expanded(&mut self)
        ensures
            *final(self) == (Inboxly { expanded_bundles: final(self).expanded_bundles, ..*old(self) }),
            final(self).expanded_bundles@ == pruned(
                old(self).expanded_bundles@,
                old(self).feed_sections@,
            ),
    {
        let ghost keep = |s: Seq<char>| feed_has_bundle(self.feed_sections@, s);
        let ghost e0 = self.expanded_bundles@;
        let mut out: Vec<String> = Vec::new();
        let mut i: usize = 0;
        assert(e0.take(0) =~= Seq::<String>::empty());
        while i < self.expanded_bundles.len()
            invariant
                self.expanded_bundles@ == e0,
                i <= e0.len(),
                keep == (|s: Seq<char>| feed_has_bundle(self.feed_sections@, s)),
                out@ == filter_texts(e0.take(i as int), keep),
            decreases e0.len() - i,
        {
            assert(e0.take(i + 1).drop_last() =~= e0.take(i as int));
            assert(e0.take(i + 1).last() == e0[i as int]);
            if feed_contains_bundle(&self.feed_sections, self.expanded_bundles[i].as_str()) {
                out.push(self.expanded_bundles[i].clone());
            }
            i = i + 1;
        }
        assert(e0.take(i as int) =~= e0);
        self.expanded_bundles = out;
    }

    /// Reload the feed: ask the store for it, or without a store just
    /// forget expanded bundles that left the feed.
    fn reload_feed(&mut self) -> (fx: Vec<Effect>)
        ensures
            reloaded(*old(self), *final(self), fxv(fx@)),
    {
        let mut fx: Vec<Effect> = Vec::new();
        if self.store_attached {
            fx.push(Effect::ReloadFeed);
            assert(fxv(fx@) =~= seq![EffectView::ReloadFeed]);
        } else {
            self.prune_expanded();
            assert(fxv(fx@) =~= Seq::<EffectView>::empty());
        }
        fx
    }
}

// ---------------------------------------------------------------------------
// What each message does
// ---------------------------------------------------------------------------

/// Nothing changes and nothing is asked.
pub open spec fn unchanged(pre: Inboxly, post: Inboxly, fv: Seq<EffectView>) -> bool {
    post == pre && fv.len() == 0
}

/// Both thread menus closed, no sender.
pub open spec fn closed_menus() -> MenuState {
    MenuState { overflow_thread: None, context_thread: None, thread_sender: None }
}

/// The menus close and nothing else changes.
pub open spec fn menus_closed_only(pre: Inboxly, post: Inboxly) -> bool {
    post == (Inboxly { menus: closed_menus(), ..pre })
}

/// A compose send is in flight.
pub open spec fn sending(c: ComposeState) -> bool {
    c.send_state == ComposeSendState::Sending
}

/// `c` marked dirty with its save generation bumped.
pub open spec fn bump(c: ComposeState) -> ComposeState {
    ComposeState { dirty: true, save_generation: c.save_generation.wrapping_add(1), ..c }
}

/// A compose edit: refused while a send is in flight, otherwise the
/// compose state becomes `c`.
pub open spec fn compose_edit(pre: Inboxly, post: Inboxly, fv: Seq<EffectView>, c: ComposeState) -> bool {
    &&& fv.len() == 0
    &&& if sending(pre.compose) {
        post == pre
    } else {
        post == (Inboxly { compose: c, ..pre })
    }
}

/// A compose list edit: refused while a send is in flight, otherwise
/// only the compose state changes, as `ok` says.
pub open spec fn compose_list_edit(pre: Inboxly, post: Inboxly, fv: Seq<EffectView>, ok: bool) -> bool {
    &&& fv.len() == 0
    &&& if sending(pre.compose) {
        post == pre
    } else {
        post == (Inboxly { compose: post.compose, ..pre }) && ok
    }
}

/// The recipient list of a compose state selected by `field`.
pub open spec fn recipients(c: ComposeState, field: RecipientField) -> Seq<Contact> {
    match field {
        RecipientField::To => c.to@,
        RecipientField::Cc => c.cc@,
        RecipientField::Bcc => c.bcc@,
    }
}

/// `post` differs from `pre` at most in the recipient list `field`, and
/// is marked dirty.
pub open spec fn recipients_changed(pre: ComposeState, post: ComposeState, field: RecipientField) -> bool {
    match field {
        RecipientField::To => post == (ComposeState { to: post.to, ..bump(pre) }),
        RecipientField::Cc => post == (ComposeState { cc: post.cc, ..bump(pre) }),
        RecipientField::Bcc => post == (ComposeState { bcc: post.bcc, ..bump(pre) }),
    }
}

/// Back to the view before Compose or Settings.
pub open spec fn back_to_previous(pre: Inboxly) -> Inboxly {
    Inboxly {
        active_view: pre.previous_view,
        active_nav: NavTarget::View(pre.previous_view),
        ..pre
    }
}

/// The queued action for a move.
pub open spec fn move_action(d: MoveDestination) -> ThreadActionView {
    match d {
        MoveDestination::Inbox => ThreadActionView::MoveToFolder { to_folder: "INBOX"@ },
        MoveDestination::Trash => ThreadActionView::MoveToTrash,
        MoveDestination::Spam => ThreadActionView::MoveToFolder { to_folder: "Spam"@ },
    }
}

/// A thread menu action: queue `action` for the thread (with a store)
/// and close the menus.
#[verifier::opaque]
pub open spec fn thread_action_post(
    pre: Inboxly,
    thread_id: Seq<char>,
    action: ThreadActionView,
    post: Inboxly,
    fv: Seq<EffectView>,
) -> bool {
    &&& menus_closed_only(pre, post)
    &&& fv == store_fx(
        pre.store_attached,
        seq![EffectView::EnqueueThreadActions { thread_id, action }],
    )
}

/// Ids of the unpinned candidates, in order.
pub open spec fn unpinned_ids(c: Seq<SweepCandidate>) -> Seq<Seq<char>>
    decreases c.len(),
{
    if c.len() == 0 {
        seq![]
    } else if c.last().pinned {
        unpinned_ids(c.drop_last())
    } else {
        unpinned_ids(c.drop_last()).push(c.last().thread_id@)
    }
}

/// Store writes that clear the done flag of each swept thread, in order.
pub open spec fn undone_sweep(ids: Seq<String>) -> Seq<EffectView>
    decreases ids.len(),
{
    if ids.len() == 0 {
        seq![]
    } else {
        undone_sweep(ids.drop_last()).push(
            EffectView::SetThreadDone { thread_id: ids.last()@, done: false },
        )
    }
}

/// Store writes that revert an undone action.
pub open spec fn undo_effects(a: UndoAction) -> Seq<EffectView> {
    match a {
        UndoAction::MarkDone { thread_id } => seq![
            EffectView::SetThreadDone { thread_id: thread_id@, done: false },
        ],
        UndoAction::TogglePin { thread_id, was_pinned } => seq![
            EffectView::SetThreadPinned { thread_id: thread_id@, pinned: was_pinned },
        ],
        UndoAction::Sweep { thread_ids } => undone_sweep(thread_ids@),
    }
}

/// Undoing `taken`: nothing when nothing was taken; otherwise revert it in
/// the store (with a store) and reload the feed.
pub open spec fn undo_applied(
    pre: Inboxly,
    taken: Option<UndoAction>,
    post: Inboxly,
    fv: Seq<EffectView>,
) -> bool {
    match taken {
        None => unchanged(pre, post, fv),
        Some(a) => then_reload(store_fx(pre.store_attached, undo_effects(a)), pre, post, fv),
    }
}

/// The URL scheme `url::Url::parse` reads from the text, or the text of
/// its parse error.
pub uninterp spec fn url_parse(input: Seq<char>) -> Result<Seq<char>, Seq<char>>;

/// `url::Url::parse`, reduced to the parsed URL's scheme or the text of
/// the parse error.
#[verifier::external_body]
fn parse_url_scheme(input: &str) -> (r: Result<String, String>)
    ensures
        match r {
            Ok(s) => url_parse(input@) == Ok::<Seq<char>, Seq<char>>(s@),
            Err(e) => url_parse(input@) == Err::<Seq<char>, Seq<char>>(e@),
        },
{
    match ::url::Url::parse(input) {
        Ok(u) => Ok(u.scheme().to_string()),
        Err(e) => Err(e.to_string()),
    }
}

/// Schemes that may be opened in the system browser.
pub open spec fn scheme_allowed(s: Seq<char>) -> bool {
    s == "http"@ || s == "https"@ || s == "mailto"@
}

/// Whether the text parses as a URL with an allowed scheme.
pub open spec fn url_allowed(u: Seq<char>) -> bool {
    url_parse(u) matches Ok(s) && scheme_allowed(s)
}

/// Why a URL is refused, given what parsing it gave.
pub open spec fn url_rejection(u: Seq<char>, parsed: Result<Seq<char>, Seq<char>>) -> Seq<char> {
    match parsed {
        Err(e) => "failed to parse "@ + debug_text(u) + ": "@ + e,
        Ok(s) => "rejected scheme "@ + debug_text(s) + " for url "@ + debug_text(u),
    }
}

/// A settings flag as stored: anything but `"false"` is on; absent is on.
pub open spec fn flag_of(v: Option<String>) -> bool {
    match v {
        Some(s) => s@ != "false"@,
        None => true,
    }
}

/// The stored undo timeout, 7 seconds when absent or not a `u32`.
pub open spec fn timeout_of(v: Option<String>) -> u32 {
    match v {
        Some(s) => match parse_unsigned(s@, 4294967295) {
            Some(n) => n as u32,
            None => 7,
        },
        None => 7,
    }
}

/// The stored notification bundles, `["all"]` when absent or not a JSON
/// array of strings.
pub open spec fn notification_bundles_of(v: Option<String>) -> Seq<Seq<char>> {
    match v {
        Some(j) => match json_string_array(j@) {
            Some(b) => b,
            None => seq!["all"@],
        },
        None => seq!["all"@],
    }
}

/// The text of an optional stored value.
pub open spec fn opt_text(v: Option<String>) -> Option<Seq<char>> {
    match v {
        Some(s) => Some(s@),
        None => None,
    }
}

/// Settings after the stored values were read.
pub open spec fn settings_loaded(pre: SettingsState, st: StoredSettings, post: SettingsState) -> bool {
    &&& post == (SettingsState {
        theme_preference: preference_of_setting(opt_text(st.theme)),
        default_view: post.default_view,
        undo_timeout_secs: timeout_of(st.undo_timeout_secs),
        shortcuts: post.shortcuts,
        notifications_enabled: flag_of(st.notifications_enabled),
        notification_sound: flag_of(st.notification_sound),
        notification_bundles: post.notification_bundles,
        bundles: post.bundles,
        ..pre
    })
    &&& post.default_view@ == match st.default_view {
        Some(v) => v@,
        None => "inbox"@,
    }
    &&& forall|a: ShortcutAction|
        #[trigger] post.shortcuts.override_of(a) == match st.shortcuts {
            Some(j) => json_override(j@, a),
            None => None::<Seq<char>>,
        }
    &&& texts(post.notification_bundles@) == notification_bundles_of(st.notification_bundles)
    &&& post.bundles@ == match st.bundles {
        Some(b) => b@,
        None => pre.bundles@,
    }
}

/// A settings store write.
pub open spec fn persist(key: Seq<char>, value: Seq<char>) -> EffectView {
    EffectView::PersistSetting { key, value }
}

/// Which snooze preset a message edits.
pub enum SnoozeField {
    Morning,
    Afternoon,
    Evening,
    WeekendDay,
}

/// The presets with one field set.
pub open spec fn with_preset(p: SnoozePresets, f: SnoozeField, v: u8) -> SnoozePresets {
    match f {
        SnoozeField::Morning => SnoozePresets { morning_hour: v, ..p },
        SnoozeField::Afternoon => SnoozePresets { afternoon_hour: v, ..p },
        SnoozeField::Evening => SnoozePresets { evening_hour: v, ..p },
        SnoozeField::WeekendDay => SnoozePresets { weekend_day: v, ..p },
    }
}

/// Largest value a preset field takes: hour 23, weekday 6.
pub open spec fn preset_limit(f: SnoozeField) -> nat {
    match f {
        SnoozeField::WeekendDay => 6,
        _ => 23,
    }
}

/// Setting a snooze preset from form text: a value in range is stored and
/// the configuration saved; anything else changes nothing.
#[verifier::opaque]
pub open spec fn preset_post(
    pre: Inboxly,
    val: Seq<char>,
    f: SnoozeField,
    post: Inboxly,
    fv: Seq<EffectView>,
) -> bool {
    match parse_unsigned(val, 255) {
        Some(v) => if v <= preset_limit(f) {
            &&& post == (Inboxly {
                config: AppConfig { snooze: with_preset(pre.config.snooze, f, v as u8), ..pre.config },
                ..pre
            })
            &&& fv == seq![EffectView::SaveConfig(post.config@)]
        } else {
            unchanged(pre, post, fv)
        },
        None => unchanged(pre, post, fv),
    }
}

/// The account form after a field edit.
pub open spec fn form_changed(pre: Inboxly, post: Inboxly, fv: Seq<EffectView>, form: AccountConfig) -> bool {
    post == (Inboxly { settings: SettingsState { account_form: form, ..pre.settings }, ..pre })
        && fv.len() == 0
}

/// The port a form text sets, or the old port when the text is not one.
pub open spec fn port_of(v: Seq<char>, old: u16) -> u16 {
    match parse_unsigned(v, 65535) {
        Some(p) => p as u16,
        None => old,
    }
}

/// Saving the account form: an invalid form changes nothing; a valid one
/// is added or replaces the edited account, the configuration is saved
/// and the form closes.
pub open spec fn form_saved(pre: Inboxly, post: Inboxly, fv: Seq<EffectView>) -> bool {
    let form = pre.settings.account_form;
    let accts = pre.config.accounts@;
    if !account_form_valid(form) {
        unchanged(pre, post, fv)
    } else {
        &&& post == (Inboxly {
            config: AppConfig { accounts: post.config.accounts, ..pre.config },
            settings: SettingsState { editing_account_index: None, adding_account: false, ..pre.settings },
            ..pre
        })
        &&& post.config.accounts@ == if pre.settings.adding_account {
            accts.push(form)
        } else if pre.settings.editing_account_index matches Some(i) && i < accts.len() {
            accts.update(pre.settings.editing_account_index->0 as int, form)
        } else {
            accts
        }
        &&& fv == seq![EffectView::SaveConfig(post.config@)]
    }
}

/// Removing an account: never the active one; an index in range is
/// removed, the active index follows its account, and the configuration
/// is saved. The confirmation closes in every case.
pub open spec fn account_removed(pre: Inboxly, index: usize, post: Inboxly, fv: Seq<EffectView>) -> bool {
    let closed = Inboxly {
        settings: SettingsState { removing_account_index: None, ..pre.settings },
        ..pre
    };
    if index == pre.active_account_index || index >= pre.config.accounts@.len() {
        unchanged(closed, post, fv)
    } else {
        &&& post == (Inboxly {
            config: AppConfig { accounts: post.config.accounts, ..pre.config },
            active_account_index: if pre.active_account_index > index {
                (pre.active_account_index - 1) as usize
            } else {
                pre.active_account_index
            },
            ..closed
        })
        &&& post.config.accounts@ == pre.config.accounts@.remove(index as int)
        &&& fv == seq![EffectView::SaveConfig(post.config@)]
    }
}

/// The status line a cache clear leaves.
pub open spec fn cache_status(pre: Option<String>, o: CacheClearOutcome, post: Option<String>) -> bool {
    match o {
        CacheClearOutcome::Cleared => post matches Some(m) && m@ == "Cache cleared"@,
        CacheClearOutcome::NothingToClear => post matches Some(m) && m@ == "No cache to clear"@,
        CacheClearOutcome::Failed(e) => post matches Some(m) && m@ == "Failed to clear cache: "@ + e@,
        CacheClearOutcome::Unavailable => post == pre,
    }
}

/// The visibility a toggle gives.
pub open spec fn toggled_visibility(v: Seq<char>) -> Seq<char> {
    if v == "visible"@ {
        "hidden"@
    } else {
        "visible"@
    }
}

/// Only the bundle row at `k` changed.
pub open spec fn bundle_row_set(pre: Inboxly, k: int, post: Inboxly) -> bool {
    &&& post == (Inboxly {
        settings: SettingsState { bundles: post.settings.bundles, ..pre.settings },
        ..pre
    })
    &&& post.settings.bundles@ == pre.settings.bundles@.update(k, post.settings.bundles@[k])
}

/// The rows after giving each listed id its position as sort order (the
/// first row with that id; unknown ids are skipped).
pub open spec fn assign_orders(rows: Seq<BundleRow>, ids: Seq<String>) -> Seq<BundleRow>
    decreases ids.len(),
{
    if ids.len() == 0 {
        rows
    } else {
        let r = assign_orders(rows, ids.drop_last());
        match first_row(r, ids.last()@) {
            Some(k) => r.update(k, BundleRow { sort_order: (ids.len() - 1) as i64, ..r[k] }),
            None => r,
        }
    }
}

/// The rows written while assigning sort orders, in order.
pub open spec fn reorder_writes(rows: Seq<BundleRow>, ids: Seq<String>) -> Seq<BundleRow>
    decreases ids.len(),
{
    if ids.len() == 0 {
        seq![]
    } else {
        let r = assign_orders(rows, ids.drop_last());
        match first_row(r, ids.last()@) {
            Some(k) => reorder_writes(rows, ids.drop_last()).push(
                BundleRow { sort_order: (ids.len() - 1) as i64, ..r[k] },
            ),
            None => reorder_writes(rows, ids.drop_last()),
        }
    }
}

/// Store writes of bundle rows, in order.
pub open spec fn row_writes(rows: Seq<BundleRow>) -> Seq<EffectView>
    decreases rows.len(),
{
    if rows.len() == 0 {
        seq![]
    } else {
        row_writes(rows.drop_last()).push(EffectView::UpdateBundleRow(rows.last()))
    }
}

/// The texts of a parse result.
pub open spec fn result_text(p: Result<String, String>) -> Result<Seq<char>, Seq<char>> {
    match p {
        Ok(s) => Ok(s@),
        Err(e) => Err(e@),
    }
}

/// Decide on a URL given what parsing it gave: allowed schemes pass,
/// anything else is refused with the reason.
pub fn check_url_scheme(url: &str, parsed: Result<String, String>) -> (r: Result<(), String>)
    ensures
        r is Ok <==> (result_text(parsed) matches Ok(s) && scheme_allowed(s)),
        r matches Err(m) ==> m@ == url_rejection(url@, result_text(parsed)),
{
    match parsed {
        Err(e) => {
            let mut m = owned("failed to parse ");
            crate::text::push_str(&mut m, debug_quoted(url).as_str());
            crate::text::push_str(&mut m, ": ");
            crate::text::push_str(&mut m, e.as_str());
            Err(m)
        },
        Ok(scheme) => {
            if str_eq(scheme.as_str(), "http") || str_eq(scheme.as_str(), "https") || str_eq(
                scheme.as_str(),
                "mailto",
            ) {
                Ok(())
            } else {
                let mut m = owned("rejected scheme ");
                crate::text::push_str(&mut m, debug_quoted(scheme.as_str()).as_str());
                crate::text::push_str(&mut m, " for url ");
                crate::text::push_str(&mut m, debug_quoted(url).as_str());
                Err(m)
            }
        },
    }
}

/// Validate an external URL against the scheme allowlist (`http`,
/// `https`, `mailto`): `Ok` when it parses and its scheme is allowed,
/// otherwise the reason it was refused.
pub fn validate_external_url(url: &str) -> (r: Result<(), String>)
    ensures
        r is Ok <==> url_allowed(url@),
        r matches Err(m) ==> m@ == url_rejection(url@, url_parse(url@)),
{
    let parsed = parse_url_scheme(url);
    check_url_scheme(url, parsed)
}

/// The compose view opened on a fresh draft: the view before it is
/// remembered, every compose field is blank except the draft id, and the
/// draft is sent from the active account.
pub open spec fn compose_opened(pre: Inboxly, post: Inboxly) -> bool {
    &&& post == (Inboxly {
        previous_view: pre.active_view,
        active_view: ActiveView::Compose,
        active_nav: NavTarget::View(ActiveView::Compose),
        compose: post.compose,
        ..pre
    })
    &&& is_blank(ComposeState { draft_id: None, from_account_index: 0, ..post.compose })
    &&& post.compose.from_account_index == pre.active_account_index
}

/// The shortcut overrides are written to the store (with a store).
pub open spec fn shortcuts_persisted(store: bool, m: ShortcutMap, fv: Seq<EffectView>) -> bool {
    if store {
        &&& fv.len() == 1
        &&& fv[0] matches EffectView::PersistSetting { key, value } && key == "shortcuts"@
            && is_overrides_json(m, value)
    } else {
        fv.len() == 0
    }
}

/// The settings-store text of a flag.
pub open spec fn flag_text(b: bool) -> Seq<char> {
    if b {
        "true"@
    } else {
        "false"@
    }
}

/// The Data & Storage figures after a measurement.
pub open spec fn storage_measured(
    pre: Inboxly,
    sizes: Option<StorageSizes>,
    last_sync: Option<String>,
    post: Inboxly,
) -> bool {
    let a = pre.settings;
    let b = post.settings;
    &&& post == (Inboxly {
        settings: SettingsState {
            db_size_display: b.db_size_display,
            index_size_display: b.index_size_display,
            maildir_size_display: b.maildir_size_display,
            last_sync_display: b.last_sync_display,
            ..a
        },
        ..pre
    })
    &&& match sizes {
        Some(z) => b.db_size_display@ == size_text(z.db_bytes) && b.index_size_display@ == size_text(
            z.index_bytes,
        ) && b.maildir_size_display@ == size_text(z.maildir_bytes),
        None => b.db_size_display == a.db_size_display && b.index_size_display
            == a.index_size_display && b.maildir_size_display == a.maildir_size_display,
    }
    &&& if pre.store_attached {
        b.last_sync_display@ == match last_sync {
            Some(t) => t@,
            None => "Never"@,
        }
    } else {
        b.last_sync_display == a.last_sync_display
    }
}

/// The settings state with one field replaced, everything else kept.
pub open spec fn with_settings(pre: Inboxly, s: SettingsState) -> Inboxly {
    Inboxly { settings: s, ..pre }
}

/// What `Navigate` does.
#[verifier::opaque]
pub open spec fn navigate_post(pre: Inboxly, target: NavTarget, post: Inboxly, fv: Seq<EffectView>) -> bool {
    let view = match target {
        NavTarget::View(v) => v,
        _ => pre.active_view,
    };
    post == (Inboxly {
        active_view: view,
        active_nav: target,
        account_switcher_open: false,
        ..pre
    }) && fv.len() == 0
}

/// What `ToggleDrawer` does.
#[verifier::opaque]
pub open spec fn toggle_drawer_post(pre: Inboxly, post: Inboxly, fv: Seq<EffectView>) -> bool {
    post == (Inboxly { drawer_open: !pre.drawer_open, ..pre })
    && fv.len() == 0
}

/// What `SearchChanged` does.
#[verifier::opaque]
pub open spec fn search_changed_post(pre: Inboxly, post: Inboxly, fv: Seq<EffectView>) -> bool {
    unchanged(pre, post, fv)
}

/// What `ThemeToggled` does.
#[verifier::opaque]
pub open spec fn theme_toggled_post(pre: Inboxly, post: Inboxly, fv: Seq<EffectView>) -> bool {
    post == (Inboxly {
        theme: ThemeConfig {
            colors: if pre.theme.colors.is_dark {
                light_colors()
            } else {
                dark_colors()
            },
        },
        ..pre
    }) && fv.len() == 0
}

/// What `ThemeChanged` does.
#[verifier::opaque]
pub open spec fn theme_changed_post(pre: Inboxly, t: ThemeConfig, post: Inboxly, fv: Seq<EffectView>) -> bool {
    post == (Inboxly { theme: t, ..pre }) && fv.len() == 0
}

/// What `ReloadFeed` does.
#[verifier::opaque]
pub open spec fn reload_feed_post(pre: Inboxly, post: Inboxly, fv: Seq<EffectView>) -> bool {
    reloaded(pre, post, fv)
}

/// What `FeedLoaded` does.
#[verifier::opaque]
pub open spec fn feed_loaded_post(pre: Inboxly, res: Option<Vec<FeedSection>>, post: Inboxly, fv: Seq<EffectView>) -> bool {
    &&& post == (Inboxly {
        feed_sections: post.feed_sections,
        expanded_bundles: post.expanded_bundles,
        ..pre
    })
    &&& post.feed_sections@ == match res {
        Some(v) => v@,
        None => seq![],
    }
    &&& post.expanded_bundles@ == pruned(pre.expanded_bundles@, post.feed_sections@)
    &&& fv.len() == 0
}

/// What `MarkDone` does.
#[verifier::opaque]
pub open spec fn mark_done_post(pre: Inboxly, tid: String, post: Inboxly, fv: Seq<EffectView>) -> bool {
    &&& undo_pushed(pre.undo_state, post.undo_state, UndoAction::MarkDone { thread_id: tid })
    &&& then_reload(
        store_fx(
            pre.store_attached,
            seq![
                EffectView::SetThreadDone { thread_id: tid@, done: true },
                EffectView::EnqueueThreadActions {
                    thread_id: tid@,
                    action: ThreadActionView::MarkDone,
                },
            ],
        ),
        Inboxly { undo_state: post.undo_state, ..pre },
        post,
        fv,
    )
}

/// What `TogglePin` does.
#[verifier::opaque]
pub open spec fn toggle_pin_post(pre: Inboxly, thread_id: String, was_pinned: bool, post: Inboxly, fv: Seq<EffectView>) -> bool {
    &&& undo_pushed(
        pre.undo_state,
        post.undo_state,
        UndoAction::TogglePin { thread_id, was_pinned },
    )
    &&& then_reload(
        store_fx(
            pre.store_attached,
            seq![EffectView::SetThreadPinned { thread_id: thread_id@, pinned: !was_pinned }],
        ),
        Inboxly { undo_state: post.undo_state, ..pre },
        post,
        fv,
    )
}

/// What `Sweep` does.
#[verifier::opaque]
pub open spec fn sweep_post(pre: Inboxly, post: Inboxly, fv: Seq<EffectView>) -> bool {
    if pre.store_attached {
        post == pre && fv == seq![EffectView::LoadSweepCandidates]
    } else {
        reloaded(pre, post, fv)
    }
}

/// What `SweepCandidatesLoaded` does.
#[verifier::opaque]
pub open spec fn sweep_candidates_loaded_post(pre: Inboxly, c: Vec<SweepCandidate>, post: Inboxly, fv: Seq<EffectView>) -> bool {
    if unpinned_ids(c@).len() == 0 {
        reloaded(pre, post, fv)
    } else {
        post == pre && fv == seq![EffectView::MarkThreadsDone(unpinned_ids(c@))]
    }
}

/// What `SweepCompleted` does.
#[verifier::opaque]
pub open spec fn sweep_completed_post(pre: Inboxly, swept: Vec<String>, post: Inboxly, fv: Seq<EffectView>) -> bool {
    if swept@.len() > 0 {
        &&& undo_pushed(pre.undo_state, post.undo_state, UndoAction::Sweep { thread_ids: swept })
        &&& reloaded(Inboxly { undo_state: post.undo_state, ..pre }, post, fv)
    } else {
        reloaded(pre, post, fv)
    }
}

/// What `Undo` does.
#[verifier::opaque]
pub open spec fn undo_post(pre: Inboxly, post: Inboxly, fv: Seq<EffectView>) -> bool {
    let mid = Inboxly { undo_state: post.undo_state, ..pre };
    let pending = pre.undo_state.pending();
    &&& undo_cleared(pre.undo_state, post.undo_state)
    &&& (undo_applied(mid, None, post, fv) || (pending is Some && undo_applied(
        mid,
        pending,
        post,
        fv,
    )))
    &&& (pending is Some && !pre.undo_state.timed() ==> undo_applied(mid, pending, post, fv))
}

/// What `UndoExpired` does.
#[verifier::opaque]
pub open spec fn undo_expired_post(pre: Inboxly, post: Inboxly, fv: Seq<EffectView>) -> bool {
    &&& undo_cleared(pre.undo_state, post.undo_state)
    &&& post == (Inboxly { undo_state: post.undo_state, ..pre })
    &&& fv.len() == 0
}

/// What `SnoozeThread` does.
#[verifier::opaque]
pub open spec fn snooze_thread_post(pre: Inboxly, thread_id: String, until: i64, post: Inboxly, fv: Seq<EffectView>) -> bool {
    then_reload(
        store_fx(
            pre.store_attached,
            seq![EffectView::SetThreadSnoozed { thread_id: thread_id@, until }],
        ),
        Inboxly { snooze: SnoozeState { picker_thread: None }, ..pre },
        post,
        fv,
    )
}

/// What `OpenOverflowMenu` does.
#[verifier::opaque]
pub open spec fn open_overflow_menu_post(pre: Inboxly, thread_id: String, sender_address: String, post: Inboxly, fv: Seq<EffectView>) -> bool {
    post == (Inboxly {
        menus: MenuState {
            overflow_thread: Some(thread_id),
            context_thread: None,
            thread_sender: Some(sender_address),
        },
        ..pre
    }) && fv.len() == 0
}

/// What `CloseOverflowMenu` does.
#[verifier::opaque]
pub open spec fn close_overflow_menu_post(pre: Inboxly, post: Inboxly, fv: Seq<EffectView>) -> bool {
    post == (Inboxly {
        menus: MenuState { overflow_thread: None, thread_sender: None, ..pre.menus },
        ..pre
    }) && fv.len() == 0
}

/// What `OpenContextMenu` does.
#[verifier::opaque]
pub open spec fn open_context_menu_post(pre: Inboxly, thread_id: String, sender_address: String, post: Inboxly, fv: Seq<EffectView>) -> bool {
    post == (Inboxly {
        menus: MenuState {
            overflow_thread: None,
            context_thread: Some(thread_id),
            thread_sender: Some(sender_address),
        },
        ..pre
    }) && fv.len() == 0
}

/// What `CloseContextMenu` does.
#[verifier::opaque]
pub open spec fn close_context_menu_post(pre: Inboxly, post: Inboxly, fv: Seq<EffectView>) -> bool {
    post == (Inboxly {
        menus: MenuState { context_thread: None, thread_sender: None, ..pre.menus },
        ..pre
    }) && fv.len() == 0
}

/// What `OpenThread` does.
#[verifier::opaque]
pub open spec fn open_thread_post(pre: Inboxly, tid: String, post: Inboxly, fv: Seq<EffectView>) -> bool {
    post == (Inboxly {
        open_thread_id: Some(tid),
        menus: closed_menus(),
        account_switcher_open: false,
        ..pre
    }) && fv.len() == 0
}

/// What `CloseThread` does.
#[verifier::opaque]
pub open spec fn close_thread_post(pre: Inboxly, post: Inboxly, fv: Seq<EffectView>) -> bool {
    post == (Inboxly { open_thread_id: None, ..pre }) && fv.len() == 0
}

/// What `OpenExternalUrl` does.
#[verifier::opaque]
pub open spec fn open_external_url_post(pre: Inboxly, url: String, post: Inboxly, fv: Seq<EffectView>) -> bool {
    post == pre && fv == if url_allowed(url@) {
        seq![EffectView::OpenUrl(url@)]
    } else {
        seq![]
    }
}

/// What `ToggleAccountSwitcher` does.
#[verifier::opaque]
pub open spec fn toggle_account_switcher_post(pre: Inboxly, post: Inboxly, fv: Seq<EffectView>) -> bool {
    post == (Inboxly {
        account_switcher_open: !pre.account_switcher_open,
        ..pre
    }) && fv.len() == 0
}

/// What `SwitchAccount` does.
#[verifier::opaque]
pub open spec fn switch_account_post(pre: Inboxly, index: usize, post: Inboxly, fv: Seq<EffectView>) -> bool {
    if index < pre.accounts@.len() {
        reloaded(
            Inboxly {
                active_account_index: index,
                account_switcher_open: false,
                open_thread_id: None,
                ..pre
            },
            post,
            fv,
        )
    } else {
        unchanged(pre, post, fv)
    }
}

/// What `NavigateToSettings` does.
#[verifier::opaque]
pub open spec fn navigate_to_settings_post(pre: Inboxly, post: Inboxly, fv: Seq<EffectView>) -> bool {
    let st = pre.settings;
    let entering = pre.active_view != ActiveView::Settings;
    &&& post == (Inboxly {
        previous_view: if entering {
            pre.active_view
        } else {
            pre.previous_view
        },
        active_view: ActiveView::Settings,
        active_nav: NavTarget::View(ActiveView::Settings),
        drawer_open: false,
        settings: SettingsState {
            drawer_was_open: if entering {
                pre.drawer_open
            } else {
                st.drawer_was_open
            },
            tab: SettingsTab::General,
            ..st
        },
        ..pre
    })
    &&& fv == store_fx(pre.store_attached, seq![EffectView::LoadSettings]) + seq![
        EffectView::LoadConfig,
    ]
}

/// What `SettingsLoaded` does.
#[verifier::opaque]
pub open spec fn settings_loaded_post(pre: Inboxly, stored: StoredSettings, post: Inboxly, fv: Seq<EffectView>) -> bool {
    let st = pre.settings;
    post == with_settings(pre, post.settings) && settings_loaded(
        st,
        stored,
        post.settings,
    ) && fv.len() == 0
}

/// What `ConfigLoaded` does.
#[verifier::opaque]
pub open spec fn config_loaded_post(pre: Inboxly, c: AppConfig, post: Inboxly, fv: Seq<EffectView>) -> bool {
    post == (Inboxly { config: c, ..pre }) && fv.len() == 0
}

/// What `NavigateBack` does.
#[verifier::opaque]
pub open spec fn navigate_back_post(pre: Inboxly, post: Inboxly, fv: Seq<EffectView>) -> bool {
    let st = pre.settings;
    post == (Inboxly {
        drawer_open: st.drawer_was_open,
        ..back_to_previous(pre)
    }) && fv.len() == 0
}

/// What `SettingsTabChanged` does.
#[verifier::opaque]
pub open spec fn settings_tab_changed_post(pre: Inboxly, tab: SettingsTab, post: Inboxly, fv: Seq<EffectView>) -> bool {
    let st = pre.settings;
    post == with_settings(
        pre,
        SettingsState {
            tab,
            editing_account_index: None,
            adding_account: false,
            removing_account_index: None,
            data_action_status: None,
            ..st
        },
    ) && fv == if tab == SettingsTab::DataStorage {
        seq![EffectView::MeasureStorage]
    } else {
        seq![]
    }
}

/// What `SetThemePreference` does.
#[verifier::opaque]
pub open spec fn set_theme_preference_post(pre: Inboxly, pref: ThemePreference, post: Inboxly, fv: Seq<EffectView>) -> bool {
    let st = pre.settings;
    &&& post == (Inboxly {
        settings: SettingsState { theme_preference: pref, ..st },
        theme: match pref {
            ThemePreference::Light => ThemeConfig { colors: light_colors() },
            ThemePreference::Dark => ThemeConfig { colors: dark_colors() },
            ThemePreference::System => pre.theme,
        },
        ..pre
    })
    &&& fv == store_fx(pre.store_attached, seq![persist("theme"@, preference_text(pref))])
    + if pref == ThemePreference::System {
        seq![EffectView::DetectSystemTheme]
    } else {
        seq![]
    }
}

/// What `SetDefaultView` does.
#[verifier::opaque]
pub open spec fn set_default_view_post(pre: Inboxly, v: String, post: Inboxly, fv: Seq<EffectView>) -> bool {
    let st = pre.settings;
    post == with_settings(
        pre,
        SettingsState { default_view: v, ..st },
    ) && fv == store_fx(pre.store_attached, seq![persist("default_view"@, v@)])
}

/// What `SetUndoTimeout` does.
#[verifier::opaque]
pub open spec fn set_undo_timeout_post(pre: Inboxly, secs: u32, post: Inboxly, fv: Seq<EffectView>) -> bool {
    let st = pre.settings;
    post == with_settings(
        pre,
        SettingsState { undo_timeout_secs: secs, ..st },
    ) && fv == store_fx(
        pre.store_attached,
        seq![persist("undo_timeout_secs"@, decimal(secs as nat))],
    )
}

/// What `SetSnoozeMorningHour` does.
#[verifier::opaque]
pub open spec fn set_snooze_morning_hour_post(pre: Inboxly, v: String, post: Inboxly, fv: Seq<EffectView>) -> bool {
    preset_post(pre, v@, SnoozeField::Morning, post, fv)
}

/// What `SetSnoozeAfternoonHour` does.
#[verifier::opaque]
pub open spec fn set_snooze_afternoon_hour_post(pre: Inboxly, v: String, post: Inboxly, fv: Seq<EffectView>) -> bool {
    preset_post(
        pre,
        v@,
        SnoozeField::Afternoon,
        post,
        fv,
    )
}

/// What `SetSnoozeEveningHour` does.
#[verifier::opaque]
pub open spec fn set_snooze_evening_hour_post(pre: Inboxly, v: String, post: Inboxly, fv: Seq<EffectView>) -> bool {
    preset_post(pre, v@, SnoozeField::Evening, post, fv)
}

/// What `SetSnoozeWeekendDay` does.
#[verifier::opaque]
pub open spec fn set_snooze_weekend_day_post(pre: Inboxly, v: String, post: Inboxly, fv: Seq<EffectView>) -> bool {
    preset_post(pre, v@, SnoozeField::WeekendDay, post, fv)
}

/// What `AddAccountStart` does.
#[verifier::opaque]
pub open spec fn add_account_start_post(pre: Inboxly, post: Inboxly, fv: Seq<EffectView>) -> bool {
    let st = pre.settings;
    &&& post == with_settings(
        pre,
        SettingsState {
            adding_account: true,
            editing_account_index: None,
            removing_account_index: None,
            account_form: post.settings.account_form,
            ..st
        },
    )
    &&& crate::config::is_empty_account_form(post.settings.account_form)
    &&& fv.len() == 0
}

/// What `EditAccountStart` does.
#[verifier::opaque]
pub open spec fn edit_account_start_post(pre: Inboxly, index: usize, post: Inboxly, fv: Seq<EffectView>) -> bool {
    let st = pre.settings;
    if index < pre.config.accounts@.len() {
        post == with_settings(
            pre,
            SettingsState {
                account_form: pre.config.accounts@[index as int],
                editing_account_index: Some(index),
                adding_account: false,
                removing_account_index: None,
                ..st
            },
        ) && fv.len() == 0
    } else {
        unchanged(pre, post, fv)
    }
}

/// What `AccountFormCancel` does.
#[verifier::opaque]
pub open spec fn account_form_cancel_post(pre: Inboxly, post: Inboxly, fv: Seq<EffectView>) -> bool {
    let st = pre.settings;
    post == with_settings(
        pre,
        SettingsState { editing_account_index: None, adding_account: false, ..st },
    ) && fv.len() == 0
}

/// What `AccountFormSave` does.
#[verifier::opaque]
pub open spec fn account_form_save_post(pre: Inboxly, post: Inboxly, fv: Seq<EffectView>) -> bool {
    form_saved(pre, post, fv)
}

/// What `AccountFormEmailChanged` does.
#[verifier::opaque]
pub open spec fn account_form_email_changed_post(pre: Inboxly, v: String, post: Inboxly, fv: Seq<EffectView>) -> bool {
    let st = pre.settings;
    form_changed(
        pre,
        post,
        fv,
        AccountConfig { email: v, ..st.account_form },
    )
}

/// What `AccountFormDisplayNameChanged` does.
#[verifier::opaque]
pub open spec fn account_form_display_name_changed_post(pre: Inboxly, v: String, post: Inboxly, fv: Seq<EffectView>) -> bool {
    let st = pre.settings;
    form_changed(
        pre,
        post,
        fv,
        AccountConfig { display_name: v, ..st.account_form },
    )
}

/// What `AccountFormProviderChanged` does.
#[verifier::opaque]
pub open spec fn account_form_provider_changed_post(pre: Inboxly, v: String, post: Inboxly, fv: Seq<EffectView>) -> bool {
    let st = pre.settings;
    form_changed(
        pre,
        post,
        fv,
        AccountConfig { provider: v, ..st.account_form },
    )
}

/// What `AccountFormAuthMethodChanged` does.
#[verifier::opaque]
pub open spec fn account_form_auth_method_changed_post(pre: Inboxly, v: String, post: Inboxly, fv: Seq<EffectView>) -> bool {
    let st = pre.settings;
    form_changed(
        pre,
        post,
        fv,
        AccountConfig { auth_method: auth_method_of(v@), ..st.account_form },
    )
}

/// What `AccountFormImapHostChanged` does.
#[verifier::opaque]
pub open spec fn account_form_imap_host_changed_post(pre: Inboxly, v: String, post: Inboxly, fv: Seq<EffectView>) -> bool {
    let st = pre.settings;
    form_changed(
        pre,
        post,
        fv,
        AccountConfig { imap_host: v, ..st.account_form },
    )
}

/// What `AccountFormImapPortChanged` does.
#[verifier::opaque]
pub open spec fn account_form_imap_port_changed_post(pre: Inboxly, v: String, post: Inboxly, fv: Seq<EffectView>) -> bool {
    let st = pre.settings;
    form_changed(
        pre,
        post,
        fv,
        AccountConfig { imap_port: port_of(v@, st.account_form.imap_port), ..st.account_form },
    )
}

/// What `AccountFormSmtpHostChanged` does.
#[verifier::opaque]
pub open spec fn account_form_smtp_host_changed_post(pre: Inboxly, v: String, post: Inboxly, fv: Seq<EffectView>) -> bool {
    let st = pre.settings;
    form_changed(
        pre,
        post,
        fv,
        AccountConfig { smtp_host: v, ..st.account_form },
    )
}

/// What `AccountFormSmtpPortChanged` does.
#[verifier::opaque]
pub open spec fn account_form_smtp_port_changed_post(pre: Inboxly, v: String, post: Inboxly, fv: Seq<EffectView>) -> bool {
    let st = pre.settings;
    form_changed(
        pre,
        post,
        fv,
        AccountConfig { smtp_port: port_of(v@, st.account_form.smtp_port), ..st.account_form },
    )
}

/// What `RemoveAccountConfirm` does.
#[verifier::opaque]
pub open spec fn remove_account_confirm_post(pre: Inboxly, index: usize, post: Inboxly, fv: Seq<EffectView>) -> bool {
    let st = pre.settings;
    post == with_settings(
        pre,
        SettingsState { removing_account_index: Some(index), ..st },
    ) && fv.len() == 0
}

/// What `RemoveAccountCancel` does.
#[verifier::opaque]
pub open spec fn remove_account_cancel_post(pre: Inboxly, post: Inboxly, fv: Seq<EffectView>) -> bool {
    let st = pre.settings;
    post == with_settings(
        pre,
        SettingsState { removing_account_index: None, ..st },
    ) && fv.len() == 0
}

/// What `RemoveAccountExecute` does.
#[verifier::opaque]
pub open spec fn remove_account_execute_post(pre: Inboxly, index: usize, post: Inboxly, fv: Seq<EffectView>) -> bool {
    account_removed(pre, index, post, fv)
}

/// What `ClearCache` does.
#[verifier::opaque]
pub open spec fn clear_cache_post(pre: Inboxly, post: Inboxly, fv: Seq<EffectView>) -> bool {
    post == pre && fv == seq![EffectView::ClearCache]
}

/// What `CacheCleared` does.
#[verifier::opaque]
pub open spec fn cache_cleared_post(pre: Inboxly, o: CacheClearOutcome, post: Inboxly, fv: Seq<EffectView>) -> bool {
    let st = pre.settings;
    &&& post == with_settings(
        pre,
        SettingsState { data_action_status: post.settings.data_action_status, ..st },
    )
    &&& cache_status(st.data_action_status, o, post.settings.data_action_status)
    &&& fv.len() == 0
}

/// What `RebuildSearchIndex` does.
#[verifier::opaque]
pub open spec fn rebuild_search_index_post(pre: Inboxly, post: Inboxly, fv: Seq<EffectView>) -> bool {
    let st = pre.settings;
    &&& post == with_settings(
        pre,
        SettingsState { data_action_status: post.settings.data_action_status, ..st },
    )
    &&& post.settings.data_action_status matches Some(m) && m@
    == "Rebuilding search index..."@
    &&& fv.len() == 0
}

/// What `ExportData` does.
#[verifier::opaque]
pub open spec fn export_data_post(pre: Inboxly, post: Inboxly, fv: Seq<EffectView>) -> bool {
    let st = pre.settings;
    &&& post == with_settings(
        pre,
        SettingsState { data_action_status: post.settings.data_action_status, ..st },
    )
    &&& post.settings.data_action_status matches Some(m) && m@ == "Coming soon"@
    &&& fv.len() == 0
}

/// What `DataSizesLoaded` does.
#[verifier::opaque]
pub open spec fn data_sizes_loaded_post(pre: Inboxly, db_size: String, index_size: String, maildir_size: String, last_sync: String, post: Inboxly, fv: Seq<EffectView>) -> bool {
    let st = pre.settings;
    post
    == with_settings(
        pre,
        SettingsState {
            db_size_display: db_size,
            index_size_display: index_size,
            maildir_size_display: maildir_size,
            last_sync_display: last_sync,
            ..st
        },
    ) && fv.len() == 0
}

/// What `StorageMeasured` does.
#[verifier::opaque]
pub open spec fn storage_measured_post(pre: Inboxly, sizes: Option<StorageSizes>, last_sync: Option<String>, post: Inboxly, fv: Seq<EffectView>) -> bool {
    storage_measured(
        pre,
        sizes,
        last_sync,
        post,
    ) && fv.len() == 0
}

/// What `ShortcutsLoaded` does.
#[verifier::opaque]
pub open spec fn shortcuts_loaded_post(pre: Inboxly, m: ShortcutMap, post: Inboxly, fv: Seq<EffectView>) -> bool {
    let st = pre.settings;
    post == with_settings(
        pre,
        SettingsState { shortcuts: m, ..st },
    ) && fv.len() == 0
}

/// What `SetShortcut` does.
#[verifier::opaque]
pub open spec fn set_shortcut_post(pre: Inboxly, action: ShortcutAction, binding: String, post: Inboxly, fv: Seq<EffectView>) -> bool {
    let st = pre.settings;
    &&& post == with_settings(
        pre,
        SettingsState {
            shortcuts: post.settings.shortcuts,
            capturing_shortcut: None,
            ..st
        },
    )
    &&& shortcut_set(st.shortcuts, post.settings.shortcuts, action, binding@)
    &&& shortcuts_persisted(pre.store_attached, post.settings.shortcuts, fv)
}

/// What `ResetShortcut` does.
#[verifier::opaque]
pub open spec fn reset_shortcut_post(pre: Inboxly, action: ShortcutAction, post: Inboxly, fv: Seq<EffectView>) -> bool {
    let st = pre.settings;
    &&& post == with_settings(pre, SettingsState { shortcuts: post.settings.shortcuts, ..st })
    &&& shortcut_reset(st.shortcuts, post.settings.shortcuts, action)
    &&& shortcuts_persisted(pre.store_attached, post.settings.shortcuts, fv)
}

/// What `StartCapture` does.
#[verifier::opaque]
pub open spec fn start_capture_post(pre: Inboxly, action: ShortcutAction, post: Inboxly, fv: Seq<EffectView>) -> bool {
    let st = pre.settings;
    post == with_settings(
        pre,
        SettingsState { capturing_shortcut: Some(action), ..st },
    ) && fv.len() == 0
}

/// What `CancelCapture` does.
#[verifier::opaque]
pub open spec fn cancel_capture_post(pre: Inboxly, post: Inboxly, fv: Seq<EffectView>) -> bool {
    let st = pre.settings;
    post == with_settings(
        pre,
        SettingsState { capturing_shortcut: None, ..st },
    ) && fv.len() == 0
}

/// What `ToggleNotifications` does.
#[verifier::opaque]
pub open spec fn toggle_notifications_post(pre: Inboxly, post: Inboxly, fv: Seq<EffectView>) -> bool {
    let st = pre.settings;
    post == with_settings(
        pre,
        SettingsState { notifications_enabled: !st.notifications_enabled, ..st },
    ) && fv == store_fx(
        pre.store_attached,
        seq![persist("notifications_enabled"@, flag_text(!st.notifications_enabled))],
    )
}

/// What `ToggleNotificationSound` does.
#[verifier::opaque]
pub open spec fn toggle_notification_sound_post(pre: Inboxly, post: Inboxly, fv: Seq<EffectView>) -> bool {
    let st = pre.settings;
    post == with_settings(
        pre,
        SettingsState { notification_sound: !st.notification_sound, ..st },
    ) && fv == store_fx(
        pre.store_attached,
        seq![persist("notification_sound"@, flag_text(!st.notification_sound))],
    )
}

/// What `SetNotificationBundles` does.
#[verifier::opaque]
pub open spec fn set_notification_bundles_post(pre: Inboxly, b: Vec<String>, post: Inboxly, fv: Seq<EffectView>) -> bool {
    let st = pre.settings;
    &&& post == with_settings(pre, SettingsState { notification_bundles: b, ..st })
    &&& if pre.store_attached {
        &&& fv.len() == 1
        &&& fv[0] matches EffectView::PersistSetting { key, value }
        &&& key == "notification_bundles"@
        &&& value == string_array_json(texts(b@))
    } else {
        fv.len() == 0
    }
}

/// What `BundlesLoaded` does.
#[verifier::opaque]
pub open spec fn bundles_loaded_post(pre: Inboxly, b: Vec<BundleRow>, post: Inboxly, fv: Seq<EffectView>) -> bool {
    let st = pre.settings;
    post == with_settings(pre, SettingsState { bundles: b, ..st })
    && fv.len() == 0
}

/// What `ToggleBundleVisibility` does.
#[verifier::opaque]
pub open spec fn toggle_bundle_visibility_post(pre: Inboxly, id: String, post: Inboxly, fv: Seq<EffectView>) -> bool {
    match first_row(pre.settings.bundles@, id@) {
        None => unchanged(pre, post, fv),
        Some(k) => {
            let a = pre.settings.bundles@[k];
            let b = post.settings.bundles@[k];
            &&& bundle_row_set(pre, k, post)
            &&& b == (BundleRow { visibility: b.visibility, ..a })
            &&& b.visibility@ == toggled_visibility(a.visibility@)
            &&& fv == store_fx(pre.store_attached, seq![EffectView::UpdateBundleRow(b)])
        },
    }
}

/// What `SetBundleThrottle` does.
#[verifier::opaque]
pub open spec fn set_bundle_throttle_post(pre: Inboxly, bundle_id: String, throttle_json: String, post: Inboxly, fv: Seq<EffectView>) -> bool {
    match first_row(pre.settings.bundles@, bundle_id@) {
        None => unchanged(pre, post, fv),
        Some(k) => {
            let b = post.settings.bundles@[k];
            &&& bundle_row_set(pre, k, post)
            &&& b == (BundleRow { throttle: throttle_json, ..pre.settings.bundles@[k] })
            &&& fv == store_fx(pre.store_attached, seq![EffectView::UpdateBundleRow(b)])
        },
    }
}

/// What `ReorderBundles` does.
#[verifier::opaque]
pub open spec fn reorder_bundles_post(pre: Inboxly, ids: Vec<String>, post: Inboxly, fv: Seq<EffectView>) -> bool {
    let st = pre.settings;
    &&& post == with_settings(pre, SettingsState { bundles: post.settings.bundles, ..st })
    &&& post.settings.bundles@ == sort_rows(assign_orders(st.bundles@, ids@))
    &&& fv == store_fx(pre.store_attached, row_writes(reorder_writes(st.bundles@, ids@)))
}

/// What `ToggleThrottlePopup` does.
#[verifier::opaque]
pub open spec fn toggle_throttle_popup_post(pre: Inboxly, o: Option<String>, post: Inboxly, fv: Seq<EffectView>) -> bool {
    let st = pre.settings;
    post == with_settings(
        pre,
        SettingsState { throttle_popup_bundle_id: o, ..st },
    ) && fv.len() == 0
}

/// What `MoveTo` does.
#[verifier::opaque]
pub open spec fn move_to_post(pre: Inboxly, thread_id: String, destination: MoveDestination, post: Inboxly, fv: Seq<EffectView>) -> bool {
    thread_action_post(
        pre,
        thread_id@,
        move_action(destination),
        post,
        fv,
    )
}

/// What `MarkReadState` does.
#[verifier::opaque]
pub open spec fn mark_read_state_post(pre: Inboxly, thread_id: String, read: bool, post: Inboxly, fv: Seq<EffectView>) -> bool {
    thread_action_post(
        pre,
        thread_id@,
        if read {
            ThreadActionView::MarkRead
        } else {
            ThreadActionView::MarkUnread
        },
        post,
        fv,
    )
}

/// What `MuteThread` does.
#[verifier::opaque]
pub open spec fn mute_thread_post(pre: Inboxly, post: Inboxly, fv: Seq<EffectView>) -> bool {
    menus_closed_only(pre, post) && fv.len() == 0
}

/// What `Reply` does.
#[verifier::opaque]
pub open spec fn reply_post(pre: Inboxly, post: Inboxly, fv: Seq<EffectView>) -> bool {
    menus_closed_only(pre, post) && fv.len() == 0
}

/// What `ReplyAll` does.
#[verifier::opaque]
pub open spec fn reply_all_post(pre: Inboxly, post: Inboxly, fv: Seq<EffectView>) -> bool {
    menus_closed_only(pre, post) && fv.len() == 0
}

/// What `Forward` does.
#[verifier::opaque]
pub open spec fn forward_post(pre: Inboxly, post: Inboxly, fv: Seq<EffectView>) -> bool {
    menus_closed_only(pre, post) && fv.len() == 0
}

/// What `AddToBundle` does.
#[verifier::opaque]
pub open spec fn add_to_bundle_post(pre: Inboxly, post: Inboxly, fv: Seq<EffectView>) -> bool {
    menus_closed_only(pre, post) && fv.len() == 0
}

/// What `CreateRuleFromSender` does.
#[verifier::opaque]
pub open spec fn create_rule_from_sender_post(pre: Inboxly, post: Inboxly, fv: Seq<EffectView>) -> bool {
    menus_closed_only(pre, post) && fv.len() == 0
}

/// What `BlockSender` does.
#[verifier::opaque]
pub open spec fn block_sender_post(pre: Inboxly, post: Inboxly, fv: Seq<EffectView>) -> bool {
    menus_closed_only(pre, post) && fv.len() == 0
}

/// What `ReportSpam` does.
#[verifier::opaque]
pub open spec fn report_spam_post(pre: Inboxly, tid: String, post: Inboxly, fv: Seq<EffectView>) -> bool {
    thread_action_post(
        pre,
        tid@,
        ThreadActionView::MoveToFolder { to_folder: "Spam"@ },
        post,
        fv,
    )
}

/// What `ToggleBundleExpand` does.
#[verifier::opaque]
pub open spec fn toggle_bundle_expand_post(pre: Inboxly, id: String, post: Inboxly, fv: Seq<EffectView>) -> bool {
    &&& post == (Inboxly { expanded_bundles: post.expanded_bundles, ..pre })
    &&& post.expanded_bundles@ == if has_text(pre.expanded_bundles@, id@) {
        without_text(pre.expanded_bundles@, id@)
    } else {
        pre.expanded_bundles@.push(id)
    }
    &&& fv.len() == 0
}

/// What `OpenSnoozePicker` does.
#[verifier::opaque]
pub open spec fn open_snooze_picker_post(pre: Inboxly, thread_id: String, post: Inboxly, fv: Seq<EffectView>) -> bool {
    post == (Inboxly {
        menus: closed_menus(),
        snooze: SnoozeState { picker_thread: Some(thread_id) },
        ..pre
    }) && fv.len() == 0
}

/// What `CloseSnoozePicker` does.
#[verifier::opaque]
pub open spec fn close_snooze_picker_post(pre: Inboxly, post: Inboxly, fv: Seq<EffectView>) -> bool {
    post == (Inboxly {
        snooze: SnoozeState { picker_thread: None },
        ..pre
    }) && fv.len() == 0
}

/// What `OpenCompose` does.
#[verifier::opaque]
pub open spec fn open_compose_post(pre: Inboxly, post: Inboxly, fv: Seq<EffectView>) -> bool {
    compose_opened(pre, post) && (post.compose.draft_id matches Some(id) && uuid_v4_text(id@))
    && fv.len() == 0
}

/// What `OpenComposeReply` does.
#[verifier::opaque]
pub open spec fn open_compose_reply_post(pre: Inboxly, post: Inboxly, fv: Seq<EffectView>) -> bool {
    unchanged(pre, post, fv)
}

/// What `CloseCompose` does.
#[verifier::opaque]
pub open spec fn close_compose_post(pre: Inboxly, post: Inboxly, fv: Seq<EffectView>) -> bool {
    post == back_to_previous(pre) && fv.len() == 0
}

/// What `ComposeSubjectChanged` does.
#[verifier::opaque]
pub open spec fn compose_subject_changed_post(pre: Inboxly, v: String, post: Inboxly, fv: Seq<EffectView>) -> bool {
    compose_edit(
        pre,
        post,
        fv,
        ComposeState { subject: v, ..bump(pre.compose) },
    )
}

/// What `ComposeToInputChanged` does.
#[verifier::opaque]
pub open spec fn compose_to_input_changed_post(pre: Inboxly, v: String, post: Inboxly, fv: Seq<EffectView>) -> bool {
    compose_edit(
        pre,
        post,
        fv,
        ComposeState { to_input: v, ..bump(pre.compose) },
    )
}

/// What `ComposeCcInputChanged` does.
#[verifier::opaque]
pub open spec fn compose_cc_input_changed_post(pre: Inboxly, v: String, post: Inboxly, fv: Seq<EffectView>) -> bool {
    compose_edit(
        pre,
        post,
        fv,
        ComposeState { cc_input: v, ..bump(pre.compose) },
    )
}

/// What `ComposeBccInputChanged` does.
#[verifier::opaque]
pub open spec fn compose_bcc_input_changed_post(pre: Inboxly, v: String, post: Inboxly, fv: Seq<EffectView>) -> bool {
    compose_edit(
        pre,
        post,
        fv,
        ComposeState { bcc_input: v, ..bump(pre.compose) },
    )
}

/// What `ComposeAddRecipient` does.
#[verifier::opaque]
pub open spec fn compose_add_recipient_post(pre: Inboxly, field: RecipientField, contact: Contact, post: Inboxly, fv: Seq<EffectView>) -> bool {
    compose_list_edit(
        pre,
        post,
        fv,
        recipients_changed(pre.compose, post.compose, field) && recipients(post.compose, field)
        == recipients(pre.compose, field).push(contact),
    )
}

/// What `ComposeRemoveRecipient` does.
#[verifier::opaque]
pub open spec fn compose_remove_recipient_post(pre: Inboxly, field: RecipientField, index: usize, post: Inboxly, fv: Seq<EffectView>) -> bool {
    if index < recipients(
        pre.compose,
        field,
    ).len() {
        compose_list_edit(
            pre,
            post,
            fv,
            recipients_changed(pre.compose, post.compose, field) && recipients(
                post.compose,
                field,
            ) == recipients(pre.compose, field).remove(index as int),
        )
    } else {
        unchanged(pre, post, fv)
    }
}

/// What `ComposeBodyChanged` does.
#[verifier::opaque]
pub open spec fn compose_body_changed_post(pre: Inboxly, v: String, post: Inboxly, fv: Seq<EffectView>) -> bool {
    compose_edit(
        pre,
        post,
        fv,
        ComposeState { body_markdown: v, ..bump(pre.compose) },
    )
}

/// What `ComposeToggleCcBcc` does.
#[verifier::opaque]
pub open spec fn compose_toggle_cc_bcc_post(pre: Inboxly, post: Inboxly, fv: Seq<EffectView>) -> bool {
    post == (Inboxly {
        compose: ComposeState { show_cc_bcc: !pre.compose.show_cc_bcc, ..pre.compose },
        ..pre
    }) && fv.len() == 0
}

/// What `ComposeTogglePreview` does.
#[verifier::opaque]
pub open spec fn compose_toggle_preview_post(pre: Inboxly, post: Inboxly, fv: Seq<EffectView>) -> bool {
    post == (Inboxly {
        compose: ComposeState { show_preview: !pre.compose.show_preview, ..pre.compose },
        ..pre
    }) && fv.len() == 0
}

/// What `ComposeFromChanged` does.
#[verifier::opaque]
pub open spec fn compose_from_changed_post(pre: Inboxly, account_index: usize, post: Inboxly, fv: Seq<EffectView>) -> bool {
    if account_index < pre.accounts@.len() {
        compose_edit(
            pre,
            post,
            fv,
            ComposeState { from_account_index: account_index, ..bump(pre.compose) },
        )
    } else {
        unchanged(pre, post, fv)
    }
}

/// What `ComposeAttachFile` does.
#[verifier::opaque]
pub open spec fn compose_attach_file_post(pre: Inboxly, post: Inboxly, fv: Seq<EffectView>) -> bool {
    unchanged(pre, post, fv)
}

/// What `ComposeAttachmentAdded` does.
#[verifier::opaque]
pub open spec fn compose_attachment_added_post(pre: Inboxly, att: AttachmentDraft, post: Inboxly, fv: Seq<EffectView>) -> bool {
    compose_list_edit(
        pre,
        post,
        fv,
        post.compose == (ComposeState {
            attachments: post.compose.attachments,
            ..bump(pre.compose)
        }) && post.compose.attachments@ == pre.compose.attachments@.push(att),
    )
}

/// What `ComposeAttachmentTooLarge` does.
#[verifier::opaque]
pub open spec fn compose_attachment_too_large_post(pre: Inboxly, post: Inboxly, fv: Seq<EffectView>) -> bool {
    unchanged(pre, post, fv)
}

/// What `ComposeRemoveAttachment` does.
#[verifier::opaque]
pub open spec fn compose_remove_attachment_post(pre: Inboxly, index: usize, post: Inboxly, fv: Seq<EffectView>) -> bool {
    if index < pre.compose.attachments@.len() {
        compose_list_edit(
            pre,
            post,
            fv,
            post.compose == (ComposeState {
                attachments: post.compose.attachments,
                ..bump(pre.compose)
            }) && post.compose.attachments@ == pre.compose.attachments@.remove(index as int),
        )
    } else {
        unchanged(pre, post, fv)
    }
}

/// What `ComposeSaveDraft` does.
#[verifier::opaque]
pub open spec fn compose_save_draft_post(pre: Inboxly, post: Inboxly, fv: Seq<EffectView>) -> bool {
    unchanged(pre, post, fv)
}

/// What `ComposeAutoSaveTick` does.
#[verifier::opaque]
pub open spec fn compose_auto_save_tick_post(pre: Inboxly, generation: u64, post: Inboxly, fv: Seq<EffectView>) -> bool {
    if pre.compose.save_generation == generation {
        post == (Inboxly { compose: ComposeState { dirty: false, ..pre.compose }, ..pre })
        && fv.len() == 0
    } else {
        unchanged(pre, post, fv)
    }
}

/// What `ComposeSendDraft` does.
#[verifier::opaque]
pub open spec fn compose_send_draft_post(pre: Inboxly, post: Inboxly, fv: Seq<EffectView>) -> bool {
    if can_send_spec(pre.compose) {
        post == (Inboxly {
            compose: ComposeState { send_state: ComposeSendState::Sending, ..pre.compose },
            ..pre
        }) && fv.len() == 0
    } else {
        unchanged(pre, post, fv)
    }
}

/// What `ComposeSendComplete` does.
#[verifier::opaque]
pub open spec fn compose_send_complete_post(pre: Inboxly, success: bool, error: Option<String>, post: Inboxly, fv: Seq<EffectView>) -> bool {
    &&& post == (Inboxly {
        compose: ComposeState { send_state: post.compose.send_state, ..pre.compose },
        ..pre
    })
    &&& if success {
        post.compose.send_state == ComposeSendState::Sent { dismiss_pending: true }
    } else {
        post.compose.send_state matches ComposeSendState::Failed { error: e } && e@
        == match error {
            Some(m) => m@,
            None => "send failed"@,
        }
    }
    &&& fv.len() == 0
}

/// What `ComposeDismissSentNotice` does.
#[verifier::opaque]
pub open spec fn compose_dismiss_sent_notice_post(pre: Inboxly, post: Inboxly, fv: Seq<EffectView>) -> bool {
    if pre.compose.send_state is Sent {
        post == (Inboxly { compose: post.compose, ..back_to_previous(pre) }) && is_blank(
            post.compose,
        ) && fv.len() == 0
    } else {
        unchanged(pre, post, fv)
    }
}

/// What `ComposeDiscardDraft` does.
#[verifier::opaque]
pub open spec fn compose_discard_draft_post(pre: Inboxly, post: Inboxly, fv: Seq<EffectView>) -> bool {
    post == (Inboxly {
        compose: post.compose,
        ..back_to_previous(pre)
    }) && is_blank(post.compose) && fv.len() == 0
}

/// What handling `msg` in state `pre` gives: the state `post` and the
/// effects `fv` asked of the caller.
pub open spec fn step(pre: Inboxly, msg: Message, post: Inboxly, fv: Seq<EffectView>) -> bool {
    match msg {
        Message::Navigate(target) => navigate_post(pre, target, post, fv),
        Message::ToggleDrawer => toggle_drawer_post(pre, post, fv),
        Message::SearchChanged(_) => search_changed_post(pre, post, fv),
        Message::ThemeToggled => theme_toggled_post(pre, post, fv),
        Message::ThemeChanged(t) => theme_changed_post(pre, t, post, fv),
        Message::ReloadFeed => reload_feed_post(pre, post, fv),
        Message::FeedLoaded(res) => feed_loaded_post(pre, res, post, fv),
        Message::MarkDone(tid) => mark_done_post(pre, tid, post, fv),
        Message::TogglePin { thread_id, was_pinned } => toggle_pin_post(pre, thread_id, was_pinned, post, fv),
        Message::Sweep => sweep_post(pre, post, fv),
        Message::SweepCandidatesLoaded(c) => sweep_candidates_loaded_post(pre, c, post, fv),
        Message::SweepCompleted(swept) => sweep_completed_post(pre, swept, post, fv),
        Message::Undo => undo_post(pre, post, fv),
        Message::UndoExpired => undo_expired_post(pre, post, fv),
        Message::SnoozeThread { thread_id, until } => snooze_thread_post(pre, thread_id, until, post, fv),
        Message::OpenOverflowMenu { thread_id, sender_address } => open_overflow_menu_post(pre, thread_id, sender_address, post, fv),
        Message::CloseOverflowMenu => close_overflow_menu_post(pre, post, fv),
        Message::OpenContextMenu { thread_id, sender_address } => open_context_menu_post(pre, thread_id, sender_address, post, fv),
        Message::CloseContextMenu => close_context_menu_post(pre, post, fv),
        Message::OpenThread(tid) => open_thread_post(pre, tid, post, fv),
        Message::CloseThread => close_thread_post(pre, post, fv),
        Message::OpenExternalUrl(url) => open_external_url_post(pre, url, post, fv),
        Message::ToggleAccountSwitcher => toggle_account_switcher_post(pre, post, fv),
        Message::SwitchAccount(index) => switch_account_post(pre, index, post, fv),
        Message::NavigateToSettings => navigate_to_settings_post(pre, post, fv),
        Message::SettingsLoaded(stored) => settings_loaded_post(pre, stored, post, fv),
        Message::ConfigLoaded(c) => config_loaded_post(pre, c, post, fv),
        Message::NavigateBack => navigate_back_post(pre, post, fv),
        Message::SettingsTabChanged(tab) => settings_tab_changed_post(pre, tab, post, fv),
        Message::SetThemePreference(pref) => set_theme_preference_post(pre, pref, post, fv),
        Message::SetDefaultView(v) => set_default_view_post(pre, v, post, fv),
        Message::SetUndoTimeout(secs) => set_undo_timeout_post(pre, secs, post, fv),
        Message::SetSnoozeMorningHour(v) => set_snooze_morning_hour_post(pre, v, post, fv),
        Message::SetSnoozeAfternoonHour(v) => set_snooze_afternoon_hour_post(pre, v, post, fv),
        Message::SetSnoozeEveningHour(v) => set_snooze_evening_hour_post(pre, v, post, fv),
        Message::SetSnoozeWeekendDay(v) => set_snooze_weekend_day_post(pre, v, post, fv),
        Message::AddAccountStart => add_account_start_post(pre, post, fv),
        Message::EditAccountStart(index) => edit_account_start_post(pre, index, post, fv),
        Message::AccountFormCancel => account_form_cancel_post(pre, post, fv),
        Message::AccountFormSave => account_form_save_post(pre, post, fv),
        Message::AccountFormEmailChanged(v) => account_form_email_changed_post(pre, v, post, fv),
        Message::AccountFormDisplayNameChanged(v) => account_form_display_name_changed_post(pre, v, post, fv),
        Message::AccountFormProviderChanged(v) => account_form_provider_changed_post(pre, v, post, fv),
        Message::AccountFormAuthMethodChanged(v) => account_form_auth_method_changed_post(pre, v, post, fv),
        Message::AccountFormImapHostChanged(v) => account_form_imap_host_changed_post(pre, v, post, fv),
        Message::AccountFormImapPortChanged(v) => account_form_imap_port_changed_post(pre, v, post, fv),
        Message::AccountFormSmtpHostChanged(v) => account_form_smtp_host_changed_post(pre, v, post, fv),
        Message::AccountFormSmtpPortChanged(v) => account_form_smtp_port_changed_post(pre, v, post, fv),
        Message::RemoveAccountConfirm(index) => remove_account_confirm_post(pre, index, post, fv),
        Message::RemoveAccountCancel => remove_account_cancel_post(pre, post, fv),
        Message::RemoveAccountExecute(index) => remove_account_execute_post(pre, index, post, fv),
        Message::ClearCache => clear_cache_post(pre, post, fv),
        Message::CacheCleared(o) => cache_cleared_post(pre, o, post, fv),
        Message::RebuildSearchIndex => rebuild_search_index_post(pre, post, fv),
        Message::ExportData => export_data_post(pre, post, fv),
        Message::DataSizesLoaded { db_size, index_size, maildir_size, last_sync } => data_sizes_loaded_post(pre, db_size, index_size, maildir_size, last_sync, post, fv),
        Message::StorageMeasured { sizes, last_sync } => storage_measured_post(pre, sizes, last_sync, post, fv),
        Message::ShortcutsLoaded(m) => shortcuts_loaded_post(pre, m, post, fv),
        Message::SetShortcut { action, binding } => set_shortcut_post(pre, action, binding, post, fv),
        Message::ResetShortcut(action) => reset_shortcut_post(pre, action, post, fv),
        Message::StartCapture(action) => start_capture_post(pre, action, post, fv),
        Message::CancelCapture => cancel_capture_post(pre, post, fv),
        Message::ToggleNotifications => toggle_notifications_post(pre, post, fv),
        Message::ToggleNotificationSound => toggle_notification_sound_post(pre, post, fv),
        Message::SetNotificationBundles(b) => set_notification_bundles_post(pre, b, post, fv),
        Message::BundlesLoaded(b) => bundles_loaded_post(pre, b, post, fv),
        Message::ToggleBundleVisibility(id) => toggle_bundle_visibility_post(pre, id, post, fv),
        Message::SetBundleThrottle { bundle_id, throttle_json } => set_bundle_throttle_post(pre, bundle_id, throttle_json, post, fv),
        Message::ReorderBundles(ids) => reorder_bundles_post(pre, ids, post, fv),
        Message::ToggleThrottlePopup(o) => toggle_throttle_popup_post(pre, o, post, fv),
        Message::MoveTo { thread_id, destination } => move_to_post(pre, thread_id, destination, post, fv),
        Message::MarkReadState { thread_id, read } => mark_read_state_post(pre, thread_id, read, post, fv),
        Message::MuteThread(_) => mute_thread_post(pre, post, fv),
        Message::Reply(_) => reply_post(pre, post, fv),
        Message::ReplyAll(_) => reply_all_post(pre, post, fv),
        Message::Forward(_) => forward_post(pre, post, fv),
        Message::AddToBundle { .. } => add_to_bundle_post(pre, post, fv),
        Message::CreateRuleFromSender(_) => create_rule_from_sender_post(pre, post, fv),
        Message::BlockSender { .. } => block_sender_post(pre, post, fv),
        Message::ReportSpam(tid) => report_spam_post(pre, tid, post, fv),
        Message::ToggleBundleExpand(id) => toggle_bundle_expand_post(pre, id, post, fv),
        Message::OpenSnoozePicker { thread_id } => open_snooze_picker_post(pre, thread_id, post, fv),
        Message::CloseSnoozePicker => close_snooze_picker_post(pre, post, fv),
        Message::OpenCompose => open_compose_post(pre, post, fv),
        Message::OpenComposeReply { .. } => open_compose_reply_post(pre, post, fv),
        Message::CloseCompose => close_compose_post(pre, post, fv),
        Message::ComposeSubjectChanged(v) => compose_subject_changed_post(pre, v, post, fv),
        Message::ComposeToInputChanged(v) => compose_to_input_changed_post(pre, v, post, fv),
        Message::ComposeCcInputChanged(v) => compose_cc_input_changed_post(pre, v, post, fv),
        Message::ComposeBccInputChanged(v) => compose_bcc_input_changed_post(pre, v, post, fv),
        Message::ComposeAddRecipient { field, contact } => compose_add_recipient_post(pre, field, contact, post, fv),
        Message::ComposeRemoveRecipient { field, index } => compose_remove_recipient_post(pre, field, index, post, fv),
        Message::ComposeBodyChanged(v) => compose_body_changed_post(pre, v, post, fv),
        Message::ComposeToggleCcBcc => compose_toggle_cc_bcc_post(pre, post, fv),
        Message::ComposeTogglePreview => compose_toggle_preview_post(pre, post, fv),
        Message::ComposeFromChanged { account_index } => compose_from_changed_post(pre, account_index, post, fv),
        Message::ComposeAttachFile => compose_attach_file_post(pre, post, fv),
        Message::ComposeAttachmentAdded(att) => compose_attachment_added_post(pre, att, post, fv),
        Message::ComposeAttachmentTooLarge => compose_attachment_too_large_post(pre, post, fv),
        Message::ComposeRemoveAttachment(index) => compose_remove_attachment_post(pre, index, post, fv),
        Message::ComposeSaveDraft => compose_save_draft_post(pre, post, fv),
        Message::ComposeAutoSaveTick { generation } => compose_auto_save_tick_post(pre, generation, post, fv),
        Message::ComposeSendDraft => compose_send_draft_post(pre, post, fv),
        Message::ComposeSendComplete { success, error } => compose_send_complete_post(pre, success, error, post, fv),
        Message::ComposeDismissSentNotice => compose_dismiss_sent_notice_post(pre, post, fv),
        Message::ComposeDiscardDraft => compose_discard_draft_post(pre, post, fv),
    }
}

/// A lower-case hexadecimal digit.
pub open spec fn is_lower_hex(c: char) -> bool {
    ('0' <= c <= '9') || ('a' <= c <= 'f')
}

/// The hyphenated text of a random UUID (version 4, RFC 4122 variant):
/// 36 characters, hyphens at positions 8, 13, 18 and 23, lower-case hex
/// digits elsewhere, the version digit `4` at 14 and a variant digit of
/// `8`, `9`, `a` or `b` at 19.
pub open spec fn uuid_v4_text(t: Seq<char>) -> bool {
    &&& t.len() == 36
    &&& forall|i: int|
        #![trigger t[i]]
        0 <= i < 36 ==> if i == 8 || i == 13 || i == 18 || i == 23 {
            t[i] == '-'
        } else {
            is_lower_hex(t[i])
        }
    &&& t[14] == '4'
    &&& (t[19] == '8' || t[19] == '9' || t[19] == 'a' || t[19] == 'b')
}

/// A fresh draft id: `uuid::Uuid::new_v4()` in its `Display` text, which
/// is the lower-case hyphenated form. The 122 random bits are not stated;
/// the layout and the version and variant digits that `new_v4` sets are.
#[verifier::external_body]
pub(crate) fn new_draft_id() -> (r: String)
    ensures
        uuid_v4_text(r@),
{
    uuid::Uuid::new_v4().to_string()
}

/// No effects.
fn no_effects() -> (fx: Vec<Effect>)
    ensures
        fxv(fx@) == Seq::<EffectView>::empty(),
{
    let fx: Vec<Effect> = Vec::new();
    assert(fxv(fx@) =~= Seq::<EffectView>::empty());
    fx
}

/// A one-effect list.
fn one_effect(e: Effect) -> (fx: Vec<Effect>)
    ensures
        fxv(fx@) == seq![e@],
{
    let mut fx: Vec<Effect> = Vec::new();
    fx.push(e);
    assert(fxv(fx@) =~= seq![e@]);
    fx
}

/// A settings store write of `key`.
fn persist_effect(key: &str, value: String) -> (e: Effect)
    ensures
        e@ == persist(key@, value@),
{
    Effect::PersistSetting { key: owned(key), value }
}

impl Inboxly {
    /// Mark a thread done: store it (with a store), queue the archive,
    /// offer undo and reload the feed.
    fn on_mark_done(&mut self, tid: String) -> (fx: Vec<Effect>)
        ensures
            mark_done_post(*old(self), tid, *final(self), fxv(fx@)),
    {
        proof {
            reveal(mark_done_post);
        }
        let mut fx: Vec<Effect> = Vec::new();
        if self.store_attached {
            fx.push(Effect::SetThreadDone { thread_id: tid.clone(), done: true });
            fx.push(
                Effect::EnqueueThreadActions { thread_id: tid.clone(), action: ThreadAction::MarkDone },
            );
        }
        let ghost first = fxv(fx@);
        assert(first =~= store_fx(
            old(self).store_attached,
            seq![
                EffectView::SetThreadDone { thread_id: tid@, done: true },
                EffectView::EnqueueThreadActions { thread_id: tid@, action: ThreadActionView::MarkDone },
            ],
        ));
        self.undo_state.push(UndoAction::MarkDone { thread_id: tid });
        let more = self.reload_feed();
        let ghost rest = fxv(more@);
        append_effects(&mut fx, more);
        proof {
            lemma_split_effects(first, rest);
        }
        fx
    }

    /// Toggle a thread's pin: store it (with a store), offer undo and
    /// reload the feed.
    fn on_toggle_pin(&mut self, thread_id: String, was_pinned: bool) -> (fx: Vec<Effect>)
        ensures
            toggle_pin_post(*old(self), thread_id, was_pinned, *final(self), fxv(fx@)),
    {
        proof {
            reveal(toggle_pin_post);
        }
        let mut fx: Vec<Effect> = Vec::new();
        if self.store_attached {
            fx.push(Effect::SetThreadPinned { thread_id: thread_id.clone(), pinned: !was_pinned });
        }
        let ghost first = fxv(fx@);
        assert(first =~= store_fx(
            old(self).store_attached,
            seq![EffectView::SetThreadPinned { thread_id: thread_id@, pinned: !was_pinned }],
        ));
        self.undo_state.push(UndoAction::TogglePin { thread_id, was_pinned });
        let more = self.reload_feed();
        let ghost rest = fxv(more@);
        append_effects(&mut fx, more);
        proof {
            lemma_split_effects(first, rest);
        }
        fx
    }

    /// Choose the unpinned candidates of a sweep.
    fn on_sweep_candidates(&mut self, c: Vec<SweepCandidate>) -> (fx: Vec<Effect>)
        ensures
            sweep_candidates_loaded_post(*old(self), c, *final(self), fxv(fx@)),
    {
        proof {
            reveal(sweep_candidates_loaded_post);
        }
        let mut ids: Vec<String> = Vec::new();
        let mut i: usize = 0;
        assert(c@.take(0) =~= Seq::<SweepCandidate>::empty());
        while i < c.len()
            invariant
                i <= c@.len(),
                texts(ids@) == unpinned_ids(c@.take(i as int)),
            decreases c.len() - i,
        {
            assert(c@.take(i + 1).drop_last() =~= c@.take(i as int));
            assert(c@.take(i + 1).last() == c@[i as int]);
            if !c[i].pinned {
                ids.push(c[i].thread_id.clone());
                assert(texts(ids@) =~= unpinned_ids(c@.take(i as int)).push(c@[i as int].thread_id@));
            }
            i = i + 1;
        }
        assert(c@.take(i as int) =~= c@);
        if ids.len() == 0 {
            self.reload_feed()
        } else {
            one_effect(Effect::MarkThreadsDone(ids))
        }
    }

    /// Undo a taken action: revert it in the store (with a store) and
    /// reload the feed; nothing when no action was taken.
    pub fn apply_undo(&mut self, taken: Option<UndoAction>) -> (fx: Vec<Effect>)
        ensures
            undo_applied(*old(self), taken, *final(self), fxv(fx@)),
    {
        match taken {
            None => no_effects(),
            Some(action) => {
                let ghost a = action;
                let mut fx: Vec<Effect> = Vec::new();
                if self.store_attached {
                    match action {
                        UndoAction::MarkDone { thread_id } => {
                            fx.push(Effect::SetThreadDone { thread_id, done: false });
                        },
                        UndoAction::TogglePin { thread_id, was_pinned } => {
                            fx.push(Effect::SetThreadPinned { thread_id, pinned: was_pinned });
                        },
                        UndoAction::Sweep { thread_ids } => {
                            let mut k: usize = 0;
                            assert(thread_ids@.take(0) =~= Seq::<String>::empty());
                            while k < thread_ids.len()
                                invariant
                                    k <= thread_ids@.len(),
                                    fxv(fx@) == undone_sweep(thread_ids@.take(k as int)),
                                decreases thread_ids.len() - k,
                            {
                                let ghost before = fxv(fx@);
                                fx.push(
                                    Effect::SetThreadDone {
                                        thread_id: thread_ids[k].clone(),
                                        done: false,
                                    },
                                );
                                assert(fxv(fx@) =~= before.push(
                                    EffectView::SetThreadDone {
                                        thread_id: thread_ids@[k as int]@,
                                        done: false,
                                    },
                                ));
                                assert(thread_ids@.take(k + 1).drop_last() =~= thread_ids@.take(
                                    k as int,
                                ));
                                k = k + 1;
                            }
                            assert(thread_ids@.take(k as int) =~= thread_ids@);
                        },
                    }
                }
                let ghost first = fxv(fx@);
                assert(first =~= store_fx(old(self).store_attached, undo_effects(a)));
                let more = self.reload_feed();
                let ghost rest = fxv(more@);
                append_effects(&mut fx, more);
                proof {
                    lemma_split_effects(first, rest);
                }
                fx
            },
        }
    }

    /// Snooze a thread: store it (with a store), close the picker and
    /// reload the feed.
    fn on_snooze(&mut self, thread_id: String, until: i64) -> (fx: Vec<Effect>)
        ensures
            snooze_thread_post(*old(self), thread_id, until, *final(self), fxv(fx@)),
    {
        proof {
            reveal(snooze_thread_post);
        }
        let mut fx: Vec<Effect> = Vec::new();
        if self.store_attached {
            fx.push(Effect::SetThreadSnoozed { thread_id, until });
        }
        let ghost first = fxv(fx@);
        assert(first =~= store_fx(
            old(self).store_attached,
            seq![EffectView::SetThreadSnoozed { thread_id: thread_id@, until }],
        ));
        self.snooze.picker_thread = None;
        let more = self.reload_feed();
        let ghost rest = fxv(more@);
        append_effects(&mut fx, more);
        proof {
            lemma_split_effects(first, rest);
        }
        fx
    }

    /// Enter Settings, remembering where we came from unless already
    /// there, and ask for the stored settings and the configuration.
    fn on_navigate_to_settings(&mut self) -> (fx: Vec<Effect>)
        ensures
            navigate_to_settings_post(*old(self), *final(self), fxv(fx@)),
    {
        proof {
            reveal(navigate_to_settings_post);
        }
        let entering = match self.active_view {
            ActiveView::Settings => false,
            _ => true,
        };
        if entering {
            self.previous_view = self.active_view;
            self.settings.drawer_was_open = self.drawer_open;
        }
        self.active_view = ActiveView::Settings;
        self.active_nav = NavTarget::View(ActiveView::Settings);
        self.drawer_open = false;
        self.settings.tab = SettingsTab::General;
        let mut fx: Vec<Effect> = Vec::new();
        if self.store_attached {
            fx.push(Effect::LoadSettings);
        }
        fx.push(Effect::LoadConfig);
        assert(fxv(fx@) =~= store_fx(old(self).store_attached, seq![EffectView::LoadSettings])
            + seq![EffectView::LoadConfig]);
        fx
    }

    /// Apply the values read from the settings store.
    #[verifier::rlimit(40)]
    fn on_settings_loaded(&mut self, stored: StoredSettings) -> (fx: Vec<Effect>)
        ensures
            settings_loaded_post(*old(self), stored, *final(self), fxv(fx@)),
    {
        proof {
            reveal(settings_loaded_post);
        }
        let ghost st0 = stored;
        let StoredSettings {
            theme,
            default_view,
            undo_timeout_secs,
            shortcuts,
            notifications_enabled,
            notification_sound,
            notification_bundles,
            bundles,
        } = stored;
        self.settings.theme_preference = match &theme {
            Some(t) => crate::theme::preference_from_setting(Some(t.as_str())),
            None => crate::theme::preference_from_setting(None),
        };
        self.settings.default_view = match default_view {
            Some(v) => v,
            None => owned("inbox"),
        };
        self.settings.undo_timeout_secs = match &undo_timeout_secs {
            Some(v) => match parse_u32(v.as_str()) {
                Some(n) => n,
                None => 7,
            },
            None => 7,
        };
        self.settings.shortcuts = match &shortcuts {
            Some(j) => ShortcutMap::from_overrides_json(j.as_str()),
            None => ShortcutMap::defaults(),
        };
        self.settings.notifications_enabled = match &notifications_enabled {
            Some(v) => !str_eq(v.as_str(), "false"),
            None => true,
        };
        self.settings.notification_sound = match &notification_sound {
            Some(v) => !str_eq(v.as_str(), "false"),
            None => true,
        };
        let parsed = match &notification_bundles {
            Some(j) => parse_string_array(j.as_str()),
            None => None,
        };
        self.settings.notification_bundles = match parsed {
            Some(v) => v,
            None => {
                let mut all: Vec<String> = Vec::new();
                all.push(owned("all"));
                assert(texts(all@) =~= seq!["all"@]);
                all
            },
        };
        match bundles {
            Some(b) => {
                self.settings.bundles = b;
            },
            None => {},
        }
        no_effects()
    }

    /// Set a snooze preset from form text when it is a value in range, and
    /// save the configuration.
    fn set_preset(&mut self, val: &str, f: SnoozeField) -> (fx: Vec<Effect>)
        ensures
            preset_post(*old(self), val@, f, *final(self), fxv(fx@)),
    {
        proof {
            reveal(preset_post);
        }
        let limit: u8 = match f {
            SnoozeField::WeekendDay => 6,
            _ => 23,
        };
        match parse_u8(val) {
            Some(v) => {
                if v <= limit {
                    match f {
                        SnoozeField::Morning => self.config.snooze.morning_hour = v,
                        SnoozeField::Afternoon => self.config.snooze.afternoon_hour = v,
                        SnoozeField::Evening => self.config.snooze.evening_hour = v,
                        SnoozeField::WeekendDay => self.config.snooze.weekend_day = v,
                    }
                    one_effect(Effect::SaveConfig(self.config.clone()))
                } else {
                    no_effects()
                }
            },
            None => no_effects(),
        }
    }

    /// Save the account form when it is valid.
    #[verifier::rlimit(40)]
    fn on_account_form_save(&mut self) -> (fx: Vec<Effect>)
        ensures
            account_form_save_post(*old(self), *final(self), fxv(fx@)),
    {
        proof {
            reveal(account_form_save_post);
        }
        if !account_form_is_valid(&self.settings.account_form) {
            return no_effects();
        }
        if self.settings.adding_account {
            self.config.accounts.push(self.settings.account_form.clone());
        } else {
            match self.settings.editing_account_index {
                Some(index) => {
                    if index < self.config.accounts.len() {
                        let form = self.settings.account_form.clone();
                        self.config.accounts.set(index, form);
                    }
                },
                None => {},
            }
        }
        self.settings.editing_account_index = None;
        self.settings.adding_account = false;
        one_effect(Effect::SaveConfig(self.config.clone()))
    }

    /// Remove an account unless it is the active one.
    #[verifier::rlimit(40)]
    fn on_remove_account(&mut self, index: usize) -> (fx: Vec<Effect>)
        ensures
            remove_account_execute_post(*old(self), index, *final(self), fxv(fx@)),
    {
        proof {
            reveal(remove_account_execute_post);
        }
        let mut fx: Vec<Effect> = Vec::new();
        if index != self.active_account_index && index < self.config.accounts.len() {
            self.config.accounts.remove(index);
            if self.active_account_index > index {
                self.active_account_index = self.active_account_index - 1;
            }
            fx = one_effect(Effect::SaveConfig(self.config.clone()));
        }
        self.settings.removing_account_index = None;
        fx
    }

    /// Record how a cache clear went.
    fn on_cache_cleared(&mut self, o: CacheClearOutcome) -> (fx: Vec<Effect>)
        ensures
            cache_cleared_post(*old(self), o, *final(self), fxv(fx@)),
    {
        proof {
            reveal(cache_cleared_post);
        }
        match o {
            CacheClearOutcome::Cleared => {
                self.settings.data_action_status = Some(owned("Cache cleared"));
            },
            CacheClearOutcome::NothingToClear => {
                self.settings.data_action_status = Some(owned("No cache to clear"));
            },
            CacheClearOutcome::Failed(e) => {
                let mut m = owned("Failed to clear cache: ");
                crate::text::push_str(&mut m, e.as_str());
                self.settings.data_action_status = Some(m);
            },
            CacheClearOutcome::Unavailable => {},
        }
        no_effects()
    }

    /// Show the measured data sizes and the last sync.
    fn on_storage_measured(&mut self, sizes: Option<StorageSizes>, last_sync: Option<String>) -> (fx:
        Vec<Effect>)
        ensures
            storage_measured_post(*old(self), sizes, last_sync, *final(self), fxv(fx@)),
    {
        proof {
            reveal(storage_measured_post);
        }
        match sizes {
            Some(z) => {
                self.settings.db_size_display = format_size(z.db_bytes);
                self.settings.index_size_display = format_size(z.index_bytes);
                self.settings.maildir_size_display = format_size(z.maildir_bytes);
            },
            None => {},
        }
        if self.store_attached {
            self.settings.last_sync_display = match last_sync {
                Some(t) => t,
                None => owned("Never"),
            };
        }
        no_effects()
    }

    /// The effects that persist the shortcut overrides (with a store).
    fn persist_shortcuts(&self) -> (fx: Vec<Effect>)
        ensures
            shortcuts_persisted(self.store_attached, self.settings.shortcuts, fxv(fx@)),
    {
        if self.store_attached {
            one_effect(persist_effect("shortcuts", self.settings.shortcuts.to_overrides_json()))
        } else {
            no_effects()
        }
    }

    /// Write the notification bundles (with a store).
    fn on_set_notification_bundles(&mut self, b: Vec<String>) -> (fx: Vec<Effect>)
        ensures
            set_notification_bundles_post(*old(self), b, *final(self), fxv(fx@)),
    {
        proof {
            reveal(set_notification_bundles_post);
        }
        let json = if self.store_attached {
            match string_array_to_json(&b) {
                Some(j) => Some(j),
                None => Some(owned("[\"all\"]")),
            }
        } else {
            None
        };
        self.settings.notification_bundles = b;
        match json {
            Some(j) => one_effect(persist_effect("notification_bundles", j)),
            None => no_effects(),
        }
    }

    /// Toggle the visibility of the first bundle row with the id.
    fn on_toggle_bundle_visibility(&mut self, id: String) -> (fx: Vec<Effect>)
        ensures
            toggle_bundle_visibility_post(*old(self), id, *final(self), fxv(fx@)),
    {
        proof {
            reveal(toggle_bundle_visibility_post);
        }
        match find_row(&self.settings.bundles, id.as_str()) {
            None => no_effects(),
            Some(k) => {
                let mut row = self.settings.bundles[k].clone();
                row.visibility = if str_eq(row.visibility.as_str(), "visible") {
                    owned("hidden")
                } else {
                    owned("visible")
                };
                let written = row.clone();
                self.settings.bundles.set(k, row);
                if self.store_attached {
                    one_effect(Effect::UpdateBundleRow(written))
                } else {
                    no_effects()
                }
            },
        }
    }

    /// Set the throttle of the first bundle row with the id.
    fn on_set_bundle_throttle(&mut self, bundle_id: String, throttle_json: String) -> (fx: Vec<
        Effect,
    >)
        ensures
            set_bundle_throttle_post(*old(self), bundle_id, throttle_json, *final(self), fxv(fx@)),
    {
        proof {
            reveal(set_bundle_throttle_post);
        }
        match find_row(&self.settings.bundles, bundle_id.as_str()) {
            None => no_effects(),
            Some(k) => {
                let mut row = self.settings.bundles[k].clone();
                row.throttle = throttle_json;
                let written = row.clone();
                self.settings.bundles.set(k, row);
                if self.store_attached {
                    one_effect(Effect::UpdateBundleRow(written))
                } else {
                    no_effects()
                }
            },
        }
    }

    /// Give each listed bundle its position as sort order, write the
    /// changed rows (with a store) and re-sort the list.
    fn on_reorder_bundles(&mut self, ids: Vec<String>) -> (fx: Vec<Effect>)
        ensures
            reorder_bundles_post(*old(self), ids, *final(self), fxv(fx@)),
    {
        proof {
            reveal(reorder_bundles_post);
        }
        let ghost rows0 = self.settings.bundles@;
        let mut rows = self.settings.bundles.clone();
        assert(rows@ =~= rows0);
        let mut writes: Vec<BundleRow> = Vec::new();
        let mut i: usize = 0;
        assert(ids@.take(0) =~= Seq::<String>::empty());
        while i < ids.len()
            invariant
                i <= ids@.len(),
                rows@ == assign_orders(rows0, ids@.take(i as int)),
                writes@ == reorder_writes(rows0, ids@.take(i as int)),
            decreases ids.len() - i,
        {
            let ghost pre_ids = ids@.take(i + 1);
            assert(pre_ids.drop_last() =~= ids@.take(i as int));
            assert(pre_ids.last() == ids@[i as int]);
            match find_row(&rows, ids[i].as_str()) {
                Some(k) => {
                    let mut row = rows[k].clone();
                    row.sort_order = i as i64;
                    writes.push(row.clone());
                    rows.set(k, row);
                },
                None => {},
            }
            i = i + 1;
        }
        assert(ids@.take(i as int) =~= ids@);
        let mut fx: Vec<Effect> = Vec::new();
        if self.store_attached {
            let mut j: usize = 0;
            assert(writes@.take(0) =~= Seq::<BundleRow>::empty());
            while j < writes.len()
                invariant
                    j <= writes@.len(),
                    fxv(fx@) == row_writes(writes@.take(j as int)),
                decreases writes.len() - j,
            {
                let ghost before = fxv(fx@);
                fx.push(Effect::UpdateBundleRow(writes[j].clone()));
                assert(fxv(fx@) =~= before.push(EffectView::UpdateBundleRow(writes@[j as int])));
                assert(writes@.take(j + 1).drop_last() =~= writes@.take(j as int));
                j = j + 1;
            }
            assert(writes@.take(j as int) =~= writes@);
        } else {
            assert(fxv(fx@) =~= Seq::<EffectView>::empty());
        }
        self.settings.bundles = sort_rows_exec(rows);
        fx
    }

    /// Queue an offline action for a thread (with a store) and close the
    /// menus.
    fn queue_thread_action(&mut self, thread_id: String, action: ThreadAction) -> (fx: Vec<Effect>)
        ensures
            thread_action_post(*old(self), thread_id@, action@, *final(self), fxv(fx@)),
    {
        proof {
            reveal(thread_action_post);
        }
        self.menus.close();
        if self.store_attached {
            one_effect(Effect::EnqueueThreadActions { thread_id, action })
        } else {
            no_effects()
        }
    }

    /// Expand a collapsed bundle, or collapse an expanded one.
    fn on_toggle_bundle_expand(&mut self, id: String) -> (fx: Vec<Effect>)
        ensures
            toggle_bundle_expand_post(*old(self), id, *final(self), fxv(fx@)),
    {
        proof {
            reveal(toggle_bundle_expand_post);
        }
        if contains_text(&self.expanded_bundles, id.as_str()) {
            remove_text(&mut self.expanded_bundles, id.as_str());
        } else {
            self.expanded_bundles.push(id);
        }
        no_effects()
    }

    /// Open the compose view on a fresh draft with the given id.
    pub fn open_compose_with(&mut self, draft_id: String)
        ensures
            compose_opened(*old(self), *final(self)),
            final(self).compose.draft_id == Some(draft_id),
    {
        self.previous_view = self.active_view;
        self.active_view = ActiveView::Compose;
        self.active_nav = NavTarget::View(ActiveView::Compose);
        self.compose = ComposeState::new();
        self.compose.draft_id = Some(draft_id);
        self.compose.from_account_index = self.active_account_index;
    }

    /// Whether compose edits are refused because a send is in flight.
    fn compose_sending(&self) -> (r: bool)
        ensures
            r == sending(self.compose),
    {
        matches!(self.compose.send_state, ComposeSendState::Sending)
    }

    /// Add a recipient to a list unless a send is in flight.
    fn on_add_recipient(&mut self, field: RecipientField, contact: Contact) -> (fx: Vec<Effect>)
        ensures
            compose_add_recipient_post(*old(self), field, contact, *final(self), fxv(fx@)),
    {
        proof {
            reveal(compose_add_recipient_post);
        }
        if !self.compose_sending() {
            match field {
                RecipientField::To => self.compose.to.push(contact),
                RecipientField::Cc => self.compose.cc.push(contact),
                RecipientField::Bcc => self.compose.bcc.push(contact),
            }
            self.compose.mark_dirty();
        }
        no_effects()
    }

    /// Remove a recipient by index unless a send is in flight.
    fn on_remove_recipient(&mut self, field: RecipientField, index: usize) -> (fx: Vec<Effect>)
        ensures
            compose_remove_recipient_post(*old(self), field, index, *final(self), fxv(fx@)),
    {
        proof {
            reveal(compose_remove_recipient_post);
        }
        if !self.compose_sending() {
            let len = match field {
                RecipientField::To => self.compose.to.len(),
                RecipientField::Cc => self.compose.cc.len(),
                RecipientField::Bcc => self.compose.bcc.len(),
            };
            if index < len {
                match field {
                    RecipientField::To => {
                        self.compose.to.remove(index);
                    },
                    RecipientField::Cc => {
                        self.compose.cc.remove(index);
                    },
                    RecipientField::Bcc => {
                        self.compose.bcc.remove(index);
                    },
                }
                self.compose.mark_dirty();
            }
        }
        no_effects()
    }
}


impl Inboxly {
    /// Take the loaded configuration.
    fn on_config_loaded(&mut self, c: AppConfig) -> (fx: Vec<Effect>)
        ensures
            config_loaded_post(*old(self), c, *final(self), fxv(fx@)),
    {
        proof {
            reveal(config_loaded_post);
        }
        self.config = c;
        no_effects()
    }

    /// Leave Settings for the view before it, restoring the drawer.
    fn on_navigate_back(&mut self) -> (fx: Vec<Effect>)
        ensures
            navigate_back_post(*old(self), *final(self), fxv(fx@)),
    {
        proof {
            reveal(navigate_back_post);
        }
        self.active_view = self.previous_view;
        self.active_nav = NavTarget::View(self.previous_view);
        self.drawer_open = self.settings.drawer_was_open;
        no_effects()
    }

    /// Switch settings tab, closing any edit; the Data & Storage tab asks
    /// for fresh sizes.
    fn on_settings_tab_changed(&mut self, tab: SettingsTab) -> (fx: Vec<Effect>)
        ensures
            settings_tab_changed_post(*old(self), tab, *final(self), fxv(fx@)),
    {
        proof {
            reveal(settings_tab_changed_post);
        }
        self.settings.tab = tab;
        self.settings.editing_account_index = None;
        self.settings.adding_account = false;
        self.settings.removing_account_index = None;
        self.settings.data_action_status = None;
        match tab {
            SettingsTab::DataStorage => one_effect(Effect::MeasureStorage),
            _ => no_effects(),
        }
    }

    /// Set the default view and store it (with a store).
    fn on_set_default_view(&mut self, v: String) -> (fx: Vec<Effect>)
        ensures
            set_default_view_post(*old(self), v, *final(self), fxv(fx@)),
    {
        proof {
            reveal(set_default_view_post);
        }
        let fx = if self.store_attached {
            one_effect(persist_effect("default_view", v.clone()))
        } else {
            no_effects()
        };
        self.settings.default_view = v;
        fx
    }

    /// Set the undo timeout and store it (with a store).
    fn on_set_undo_timeout(&mut self, secs: u32) -> (fx: Vec<Effect>)
        ensures
            set_undo_timeout_post(*old(self), secs, *final(self), fxv(fx@)),
    {
        proof {
            reveal(set_undo_timeout_post);
        }
        self.settings.undo_timeout_secs = secs;
        if self.store_attached {
            one_effect(persist_effect("undo_timeout_secs", decimal_string(secs as u64)))
        } else {
            no_effects()
        }
    }

    /// Report that the search index is being rebuilt.
    fn on_rebuild_search_index(&mut self) -> (fx: Vec<Effect>)
        ensures
            rebuild_search_index_post(*old(self), *final(self), fxv(fx@)),
    {
        proof {
            reveal(rebuild_search_index_post);
        }
        self.settings.data_action_status = Some(owned("Rebuilding search index..."));
        no_effects()
    }

    /// Report that export is not available yet.
    fn on_export_data(&mut self) -> (fx: Vec<Effect>)
        ensures
            export_data_post(*old(self), *final(self), fxv(fx@)),
    {
        proof {
            reveal(export_data_post);
        }
        self.settings.data_action_status = Some(owned("Coming soon"));
        no_effects()
    }

    /// Show sizes formatted elsewhere.
    fn on_data_sizes_loaded(
        &mut self,
        db_size: String,
        index_size: String,
        maildir_size: String,
        last_sync: String,
    ) -> (fx: Vec<Effect>)
        ensures
            data_sizes_loaded_post(
                *old(self),
                db_size,
                index_size,
                maildir_size,
                last_sync,
                *final(self),
                fxv(fx@),
            ),
    {
        proof {
            reveal(data_sizes_loaded_post);
        }
        self.settings.db_size_display = db_size;
        self.settings.index_size_display = index_size;
        self.settings.maildir_size_display = maildir_size;
        self.settings.last_sync_display = last_sync;
        no_effects()
    }
}

/// Which handler group a message belongs to.
pub open spec fn msg_group(m: Message) -> int {
    match m {
        Message::Navigate(..) | Message::ToggleDrawer | Message::SearchChanged(..) | Message::ThemeToggled | Message::ThemeChanged(..) | Message::ReloadFeed | Message::FeedLoaded(..) | Message::MarkDone(..) | Message::TogglePin { .. } | Message::Sweep | Message::SweepCandidatesLoaded(..) | Message::SweepCompleted(..) | Message::Undo | Message::UndoExpired | Message::SnoozeThread { .. } | Message::OpenOverflowMenu { .. } | Message::CloseOverflowMenu | Message::OpenContextMenu { .. } | Message::CloseContextMenu | Message::OpenThread(..) | Message::CloseThread | Message::OpenExternalUrl(..) | Message::ToggleAccountSwitcher | Message::SwitchAccount(..) => 0,
        Message::NavigateToSettings | Message::SettingsLoaded(..) | Message::ConfigLoaded(..) | Message::NavigateBack | Message::SettingsTabChanged(..) | Message::SetThemePreference(..) | Message::SetDefaultView(..) | Message::SetUndoTimeout(..) | Message::SetSnoozeMorningHour(..) | Message::SetSnoozeAfternoonHour(..) | Message::SetSnoozeEveningHour(..) | Message::SetSnoozeWeekendDay(..) | Message::ClearCache | Message::CacheCleared(..) | Message::RebuildSearchIndex | Message::ExportData | Message::DataSizesLoaded { .. } | Message::StorageMeasured { .. } => 1,
        Message::AddAccountStart | Message::EditAccountStart(..) | Message::AccountFormCancel | Message::AccountFormSave | Message::AccountFormEmailChanged(..) | Message::AccountFormDisplayNameChanged(..) | Message::AccountFormProviderChanged(..) | Message::AccountFormAuthMethodChanged(..) | Message::AccountFormImapHostChanged(..) | Message::AccountFormImapPortChanged(..) | Message::AccountFormSmtpHostChanged(..) | Message::AccountFormSmtpPortChanged(..) | Message::RemoveAccountConfirm(..) | Message::RemoveAccountCancel | Message::RemoveAccountExecute(..) => 2,
        Message::ShortcutsLoaded(..) | Message::SetShortcut { .. } | Message::ResetShortcut(..) | Message::StartCapture(..) | Message::CancelCapture | Message::ToggleNotifications | Message::ToggleNotificationSound | Message::SetNotificationBundles(..) | Message::BundlesLoaded(..) | Message::ToggleBundleVisibility(..) | Message::SetBundleThrottle { .. } | Message::ReorderBundles(..) | Message::ToggleThrottlePopup(..) => 3,
        Message::MoveTo { .. } | Message::MarkReadState { .. } | Message::MuteThread(..) | Message::Reply(..) | Message::ReplyAll(..) | Message::Forward(..) | Message::AddToBundle { .. } | Message::CreateRuleFromSender(..) | Message::BlockSender { .. } | Message::ReportSpam(..) | Message::ToggleBundleExpand(..) | Message::OpenSnoozePicker { .. } | Message::CloseSnoozePicker => 4,
        Message::OpenCompose | Message::OpenComposeReply { .. } | Message::CloseCompose | Message::ComposeSubjectChanged(..) | Message::ComposeToInputChanged(..) | Message::ComposeCcInputChanged(..) | Message::ComposeBccInputChanged(..) | Message::ComposeAddRecipient { .. } | Message::ComposeRemoveRecipient { .. } | Message::ComposeBodyChanged(..) | Message::ComposeToggleCcBcc | Message::ComposeTogglePreview | Message::ComposeFromChanged { .. } | Message::ComposeAttachFile | Message::ComposeAttachmentAdded(..) | Message::ComposeAttachmentTooLarge | Message::ComposeRemoveAttachment(..) | Message::ComposeSaveDraft | Message::ComposeAutoSaveTick { .. } | Message::ComposeSendDraft | Message::ComposeSendComplete { .. } | Message::ComposeDismissSentNotice | Message::ComposeDiscardDraft => 5,
    }
}

/// Which handler group a message belongs to.
fn message_group(m: &Message) -> (g: u8)
    ensures
        g == msg_group(*m),
{
    match m {
        Message::Navigate(..) | Message::ToggleDrawer | Message::SearchChanged(..) | Message::ThemeToggled | Message::ThemeChanged(..) | Message::ReloadFeed | Message::FeedLoaded(..) | Message::MarkDone(..) | Message::TogglePin { .. } | Message::Sweep | Message::SweepCandidatesLoaded(..) | Message::SweepCompleted(..) | Message::Undo | Message::UndoExpired | Message::SnoozeThread { .. } | Message::OpenOverflowMenu { .. } | Message::CloseOverflowMenu | Message::OpenContextMenu { .. } | Message::CloseContextMenu | Message::OpenThread(..) | Message::CloseThread | Message::OpenExternalUrl(..) | Message::ToggleAccountSwitcher | Message::SwitchAccount(..) => 0,
        Message::NavigateToSettings | Message::SettingsLoaded(..) | Message::ConfigLoaded(..) | Message::NavigateBack | Message::SettingsTabChanged(..) | Message::SetThemePreference(..) | Message::SetDefaultView(..) | Message::SetUndoTimeout(..) | Message::SetSnoozeMorningHour(..) | Message::SetSnoozeAfternoonHour(..) | Message::SetSnoozeEveningHour(..) | Message::SetSnoozeWeekendDay(..) | Message::ClearCache | Message::CacheCleared(..) | Message::RebuildSearchIndex | Message::ExportData | Message::DataSizesLoaded { .. } | Message::StorageMeasured { .. } => 1,
        Message::AddAccountStart | Message::EditAccountStart(..) | Message::AccountFormCancel | Message::AccountFormSave | Message::AccountFormEmailChanged(..) | Message::AccountFormDisplayNameChanged(..) | Message::AccountFormProviderChanged(..) | Message::AccountFormAuthMethodChanged(..) | Message::AccountFormImapHostChanged(..) | Message::AccountFormImapPortChanged(..) | Message::AccountFormSmtpHostChanged(..) | Message::AccountFormSmtpPortChanged(..) | Message::RemoveAccountConfirm(..) | Message::RemoveAccountCancel | Message::RemoveAccountExecute(..) => 2,
        Message::ShortcutsLoaded(..) | Message::SetShortcut { .. } | Message::ResetShortcut(..) | Message::StartCapture(..) | Message::CancelCapture | Message::ToggleNotifications | Message::ToggleNotificationSound | Message::SetNotificationBundles(..) | Message::BundlesLoaded(..) | Message::ToggleBundleVisibility(..) | Message::SetBundleThrottle { .. } | Message::ReorderBundles(..) | Message::ToggleThrottlePopup(..) => 3,
        Message::MoveTo { .. } | Message::MarkReadState { .. } | Message::MuteThread(..) | Message::Reply(..) | Message::ReplyAll(..) | Message::Forward(..) | Message::AddToBundle { .. } | Message::CreateRuleFromSender(..) | Message::BlockSender { .. } | Message::ReportSpam(..) | Message::ToggleBundleExpand(..) | Message::OpenSnoozePicker { .. } | Message::CloseSnoozePicker => 4,
        Message::OpenCompose | Message::OpenComposeReply { .. } | Message::CloseCompose | Message::ComposeSubjectChanged(..) | Message::ComposeToInputChanged(..) | Message::ComposeCcInputChanged(..) | Message::ComposeBccInputChanged(..) | Message::ComposeAddRecipient { .. } | Message::ComposeRemoveRecipient { .. } | Message::ComposeBodyChanged(..) | Message::ComposeToggleCcBcc | Message::ComposeTogglePreview | Message::ComposeFromChanged { .. } | Message::ComposeAttachFile | Message::ComposeAttachmentAdded(..) | Message::ComposeAttachmentTooLarge | Message::ComposeRemoveAttachment(..) | Message::ComposeSaveDraft | Message::ComposeAutoSaveTick { .. } | Message::ComposeSendDraft | Message::ComposeSendComplete { .. } | Message::ComposeDismissSentNotice | Message::ComposeDiscardDraft => 5,
    }
}

impl Inboxly {
    /// Handle a message: update the state and return the effects the
    /// caller must perform.
    pub fn update(&mut self, message: Message) -> (fx: Vec<Effect>)
        ensures
            step(*old(self), message, *final(self), fxv(fx@)),
    {
        let g = message_group(&message);
        if g == 0 {
            self.update_feed(message)
        } else if g == 1 {
            self.update_settings(message)
        } else if g == 2 {
            self.update_accounts(message)
        } else if g == 3 {
            self.update_preferences(message)
        } else if g == 4 {
            self.update_thread_menu(message)
        } else {
            self.update_compose(message)
        }
    }

    /// Handle a message about views, the feed, undo, menus and threads.
    #[verifier::rlimit(60)]
    fn update_feed(&mut self, message: Message) -> (fx: Vec<Effect>)
        requires
            msg_group(message) == 0,
        ensures
            step(*old(self), message, *final(self), fxv(fx@)),
    {
        match message {
            Message::Navigate(target) => {
                proof {
                    reveal(navigate_post);
                }
                match &target {
                    NavTarget::View(view) => {
                        self.active_view = *view;
                    },
                    _ => {},
                }
                self.active_nav = target;
                self.account_switcher_open = false;
                no_effects()
            },
            Message::ToggleDrawer => {
                proof {
                    reveal(toggle_drawer_post);
                }
                self.drawer_open = !self.drawer_open;
                no_effects()
            },
            Message::SearchChanged(_) => {
                proof {
                    reveal(search_changed_post);
                }
                no_effects()
            },
            Message::ThemeToggled => {
                proof {
                    reveal(theme_toggled_post);
                }
                self.theme = self.theme.toggle();
                no_effects()
            },
            Message::ThemeChanged(t) => {
                proof {
                    reveal(theme_changed_post);
                }
                self.theme = t;
                no_effects()
            },
            Message::ReloadFeed => {
                proof {
                    reveal(reload_feed_post);
                }
                self.reload_feed()
            },
            Message::FeedLoaded(res) => {
                proof {
                    reveal(feed_loaded_post);
                }
                match res {
                    Some(v) => {
                        self.feed_sections = v;
                    },
                    None => {
                        self.feed_sections = Vec::new();
                    },
                }
                self.prune_expanded();
                no_effects()
            },
            Message::MarkDone(tid) => self.on_mark_done(tid),
            Message::TogglePin { thread_id, was_pinned } => self.on_toggle_pin(thread_id, was_pinned),
            Message::Sweep => {
                proof {
                    reveal(sweep_post);
                }
                if self.store_attached {
                    one_effect(Effect::LoadSweepCandidates)
                } else {
                    self.reload_feed()
                }
            },
            Message::SweepCandidatesLoaded(c) => self.on_sweep_candidates(c),
            Message::SweepCompleted(swept) => {
                proof {
                    reveal(sweep_completed_post);
                }
                if swept.len() > 0 {
                    self.undo_state.push(UndoAction::Sweep { thread_ids: swept });
                }
                self.reload_feed()
            },
            Message::Undo => {
                proof {
                    reveal(undo_post);
                }
                let taken = self.undo_state.take();
                self.apply_undo(taken)
            },
            Message::UndoExpired => {
                proof {
                    reveal(undo_expired_post);
                }
                self.undo_state.clear();
                no_effects()
            },
            Message::SnoozeThread { thread_id, until } => self.on_snooze(thread_id, until),
            Message::OpenOverflowMenu { thread_id, sender_address } => {
                proof {
                    reveal(open_overflow_menu_post);
                }
                self.menus.context_thread = None;
                self.menus.overflow_thread = Some(thread_id);
                self.menus.thread_sender = Some(sender_address);
                no_effects()
            },
            Message::CloseOverflowMenu => {
                proof {
                    reveal(close_overflow_menu_post);
                }
                self.menus.overflow_thread = None;
                self.menus.thread_sender = None;
                no_effects()
            },
            Message::OpenContextMenu { thread_id, sender_address } => {
                proof {
                    reveal(open_context_menu_post);
                }
                self.menus.overflow_thread = None;
                self.menus.context_thread = Some(thread_id);
                self.menus.thread_sender = Some(sender_address);
                no_effects()
            },
            Message::CloseContextMenu => {
                proof {
                    reveal(close_context_menu_post);
                }
                self.menus.context_thread = None;
                self.menus.thread_sender = None;
                no_effects()
            },
            Message::OpenThread(tid) => {
                proof {
                    reveal(open_thread_post);
                }
                self.open_thread_id = Some(tid);
                self.menus.close();
                self.account_switcher_open = false;
                no_effects()
            },
            Message::CloseThread => {
                proof {
                    reveal(close_thread_post);
                }
                self.open_thread_id = None;
                no_effects()
            },
            Message::OpenExternalUrl(url) => {
                proof {
                    reveal(open_external_url_post);
                }
                match validate_external_url(url.as_str()) {
                    Ok(()) => one_effect(Effect::OpenUrl(url)),
                    Err(_) => no_effects(),
                }
            },
            Message::ToggleAccountSwitcher => {
                proof {
                    reveal(toggle_account_switcher_post);
                }
                self.account_switcher_open = !self.account_switcher_open;
                no_effects()
            },
            Message::SwitchAccount(index) => {
                proof {
                    reveal(switch_account_post);
                }
                if index < self.accounts.len() {
                    self.active_account_index = index;
                    self.account_switcher_open = false;
                    self.open_thread_id = None;
                    self.reload_feed()
                } else {
                    no_effects()
                }
            },
            _ => {
                proof {
                    assert(false);
                }
                no_effects()
            },
        }
    }

    /// Handle a message about the settings panel and data tab.
    #[verifier::rlimit(60)]
    fn update_settings(&mut self, message: Message) -> (fx: Vec<Effect>)
        requires
            msg_group(message) == 1,
        ensures
            step(*old(self), message, *final(self), fxv(fx@)),
    {
        match message {
            Message::NavigateToSettings => self.on_navigate_to_settings(),
            Message::SettingsLoaded(stored) => self.on_settings_loaded(stored),
            Message::ConfigLoaded(c) => self.on_config_loaded(c),
            Message::NavigateBack => self.on_navigate_back(),
            Message::SettingsTabChanged(tab) => self.on_settings_tab_changed(tab),
            Message::SetThemePreference(pref) => self.on_set_theme_preference(pref),
            Message::SetDefaultView(v) => self.on_set_default_view(v),
            Message::SetUndoTimeout(secs) => self.on_set_undo_timeout(secs),
            Message::SetSnoozeMorningHour(v) => {
                proof {
                    reveal(set_snooze_morning_hour_post);
                }
                self.set_preset(v.as_str(), SnoozeField::Morning)
            },
            Message::SetSnoozeAfternoonHour(v) => {
                proof {
                    reveal(set_snooze_afternoon_hour_post);
                }
                self.set_preset(v.as_str(), SnoozeField::Afternoon)
            },
            Message::SetSnoozeEveningHour(v) => {
                proof {
                    reveal(set_snooze_evening_hour_post);
                }
                self.set_preset(v.as_str(), SnoozeField::Evening)
            },
            Message::SetSnoozeWeekendDay(v) => {
                proof {
                    reveal(set_snooze_weekend_day_post);
                }
                self.set_preset(v.as_str(), SnoozeField::WeekendDay)
            },
            Message::ClearCache => {
                proof {
                    reveal(clear_cache_post);
                }
                one_effect(Effect::ClearCache)
            },
            Message::CacheCleared(o) => self.on_cache_cleared(o),
            Message::RebuildSearchIndex => self.on_rebuild_search_index(),
            Message::ExportData => self.on_export_data(),
            Message::DataSizesLoaded { db_size, index_size, maildir_size, last_sync } => self
                .on_data_sizes_loaded(db_size, index_size, maildir_size, last_sync),
            Message::StorageMeasured { sizes, last_sync } => self.on_storage_measured(sizes, last_sync),
            _ => {
                proof {
                    assert(false);
                }
                no_effects()
            },
        }
    }

    /// Handle a message about the account forms.
    #[verifier::rlimit(60)]
    fn update_accounts(&mut self, message: Message) -> (fx: Vec<Effect>)
        requires
            msg_group(message) == 2,
        ensures
            step(*old(self), message, *final(self), fxv(fx@)),
    {
        match message {
            Message::AddAccountStart => {
                proof {
                    reveal(add_account_start_post);
                }
                self.settings.adding_account = true;
                self.settings.editing_account_index = None;
                self.settings.removing_account_index = None;
                self.settings.account_form = crate::config::new_empty_account_form();
                no_effects()
            },
            Message::EditAccountStart(index) => {
                proof {
                    reveal(edit_account_start_post);
                }
                if index < self.config.accounts.len() {
                    self.settings.account_form = self.config.accounts[index].clone();
                    self.settings.editing_account_index = Some(index);
                    self.settings.adding_account = false;
                    self.settings.removing_account_index = None;
                }
                no_effects()
            },
            Message::AccountFormCancel => {
                proof {
                    reveal(account_form_cancel_post);
                }
                self.settings.editing_account_index = None;
                self.settings.adding_account = false;
                no_effects()
            },
            Message::AccountFormSave => self.on_account_form_save(),
            Message::AccountFormEmailChanged(v) => {
                proof {
                    reveal(account_form_email_changed_post);
                }
                self.settings.account_form.email = v;
                no_effects()
            },
            Message::AccountFormDisplayNameChanged(v) => {
                proof {
                    reveal(account_form_display_name_changed_post);
                }
                self.settings.account_form.display_name = v;
                no_effects()
            },
            Message::AccountFormProviderChanged(v) => {
                proof {
                    reveal(account_form_provider_changed_post);
                }
                self.settings.account_form.provider = v;
                no_effects()
            },
            Message::AccountFormAuthMethodChanged(v) => {
                proof {
                    reveal(account_form_auth_method_changed_post);
                }
                self.settings.account_form.auth_method = AuthMethod::from_form_value(v.as_str());
                no_effects()
            },
            Message::AccountFormImapHostChanged(v) => {
                proof {
                    reveal(account_form_imap_host_changed_post);
                }
                self.settings.account_form.imap_host = v;
                no_effects()
            },
            Message::AccountFormImapPortChanged(v) => {
                proof {
                    reveal(account_form_imap_port_changed_post);
                }
                match parse_u16(v.as_str()) {
                    Some(port) => {
                        self.settings.account_form.imap_port = port;
                    },
                    None => {},
                }
                no_effects()
            },
            Message::AccountFormSmtpHostChanged(v) => {
                proof {
                    reveal(account_form_smtp_host_changed_post);
                }
                self.settings.account_form.smtp_host = v;
                no_effects()
            },
            Message::AccountFormSmtpPortChanged(v) => {
                proof {
                    reveal(account_form_smtp_port_changed_post);
                }
                match parse_u16(v.as_str()) {
                    Some(port) => {
                        self.settings.account_form.smtp_port = port;
                    },
                    None => {},
                }
                no_effects()
            },
            Message::RemoveAccountConfirm(index) => {
                proof {
                    reveal(remove_account_confirm_post);
                }
                self.settings.removing_account_index = Some(index);
                no_effects()
            },
            Message::RemoveAccountCancel => {
                proof {
                    reveal(remove_account_cancel_post);
                }
                self.settings.removing_account_index = None;
                no_effects()
            },
            Message::RemoveAccountExecute(index) => self.on_remove_account(index),
            _ => {
                proof {
                    assert(false);
                }
                no_effects()
            },
        }
    }

    /// Handle a message about shortcuts, notifications and bundles.
    #[verifier::rlimit(60)]
    fn update_preferences(&mut self, message: Message) -> (fx: Vec<Effect>)
        requires
            msg_group(message) == 3,
        ensures
            step(*old(self), message, *final(self), fxv(fx@)),
    {
        match message {
            Message::ShortcutsLoaded(m) => {
                proof {
                    reveal(shortcuts_loaded_post);
                }
                self.settings.shortcuts = m;
                no_effects()
            },
            Message::SetShortcut { action, binding } => {
                proof {
                    reveal(set_shortcut_post);
                }
                self.settings.shortcuts.set(action, binding);
                self.settings.capturing_shortcut = None;
                self.persist_shortcuts()
            },
            Message::ResetShortcut(action) => {
                proof {
                    reveal(reset_shortcut_post);
                }
                self.settings.shortcuts.reset(action);
                self.persist_shortcuts()
            },
            Message::StartCapture(action) => {
                proof {
                    reveal(start_capture_post);
                }
                self.settings.capturing_shortcut = Some(action);
                no_effects()
            },
            Message::CancelCapture => {
                proof {
                    reveal(cancel_capture_post);
                }
                self.settings.capturing_shortcut = None;
                no_effects()
            },
            Message::ToggleNotifications => {
                proof {
                    reveal(toggle_notifications_post);
                }
                self.settings.notifications_enabled = !self.settings.notifications_enabled;
                if self.store_attached {
                    let v = if self.settings.notifications_enabled {
                        "true"
                    } else {
                        "false"
                    };
                    one_effect(persist_effect("notifications_enabled", owned(v)))
                } else {
                    no_effects()
                }
            },
            Message::ToggleNotificationSound => {
                proof {
                    reveal(toggle_notification_sound_post);
                }
                self.settings.notification_sound = !self.settings.notification_sound;
                if self.store_attached {
                    let v = if self.settings.notification_sound {
                        "true"
                    } else {
                        "false"
                    };
                    one_effect(persist_effect("notification_sound", owned(v)))
                } else {
                    no_effects()
                }
            },
            Message::SetNotificationBundles(b) => self.on_set_notification_bundles(b),
            Message::BundlesLoaded(b) => {
                proof {
                    reveal(bundles_loaded_post);
                }
                self.settings.bundles = b;
                no_effects()
            },
            Message::ToggleBundleVisibility(id) => self.on_toggle_bundle_visibility(id),
            Message::SetBundleThrottle { bundle_id, throttle_json } => self.on_set_bundle_throttle(
                bundle_id,
                throttle_json,
            ),
            Message::ReorderBundles(ids) => self.on_reorder_bundles(ids),
            Message::ToggleThrottlePopup(o) => {
                proof {
                    reveal(toggle_throttle_popup_post);
                }
                self.settings.throttle_popup_bundle_id = o;
                no_effects()
            },
            _ => {
                proof {
                    assert(false);
                }
                no_effects()
            },
        }
    }

    /// Handle a message about thread menu actions and the snooze picker.
    #[verifier::rlimit(60)]
    fn update_thread_menu(&mut self, message: Message) -> (fx: Vec<Effect>)
        requires
            msg_group(message) == 4,
        ensures
            step(*old(self), message, *final(self), fxv(fx@)),
    {
        match message {
            Message::MoveTo { thread_id, destination } => {
                proof {
                    reveal(move_to_post);
                }
                let action = match destination {
                    MoveDestination::Inbox => ThreadAction::MoveToFolder { to_folder: owned("INBOX") },
                    MoveDestination::Trash => ThreadAction::MoveToTrash,
                    MoveDestination::Spam => ThreadAction::MoveToFolder { to_folder: owned("Spam") },
                };
                self.queue_thread_action(thread_id, action)
            },
            Message::MarkReadState { thread_id, read } => {
                proof {
                    reveal(mark_read_state_post);
                }
                let action = if read {
                    ThreadAction::MarkRead
                } else {
                    ThreadAction::MarkUnread
                };
                self.queue_thread_action(thread_id, action)
            },
            Message::MuteThread(_) => {
                proof {
                    reveal(mute_thread_post);
                }
                self.menus.close();
                no_effects()
            },
            Message::Reply(_) => {
                proof {
                    reveal(reply_post);
                }
                self.menus.close();
                no_effects()
            },
            Message::ReplyAll(_) => {
                proof {
                    reveal(reply_all_post);
                }
                self.menus.close();
                no_effects()
            },
            Message::Forward(_) => {
                proof {
                    reveal(forward_post);
                }
                self.menus.close();
                no_effects()
            },
            Message::AddToBundle { .. } => {
                proof {
                    reveal(add_to_bundle_post);
                }
                self.menus.close();
                no_effects()
            },
            Message::CreateRuleFromSender(_) => {
                proof {
                    reveal(create_rule_from_sender_post);
                }
                self.menus.close();
                no_effects()
            },
            Message::BlockSender { .. } => {
                proof {
                    reveal(block_sender_post);
                }
                self.menus.close();
                no_effects()
            },
            Message::ReportSpam(tid) => {
                proof {
                    reveal(report_spam_post);
                }
                self.queue_thread_action(
                    tid,
                    ThreadAction::MoveToFolder { to_folder: owned("Spam") },
                )
            },
            Message::ToggleBundleExpand(id) => self.on_toggle_bundle_expand(id),
            Message::OpenSnoozePicker { thread_id } => {
                proof {
                    reveal(open_snooze_picker_post);
                }
                self.menus.close();
                self.snooze.picker_thread = Some(thread_id);
                no_effects()
            },
            Message::CloseSnoozePicker => {
                proof {
                    reveal(close_snooze_picker_post);
                }
                self.snooze.picker_thread = None;
                no_effects()
            },
            _ => {
                proof {
                    assert(false);
                }
                no_effects()
            },
        }
    }

    /// Handle a message about the compose view.
    #[verifier::rlimit(60)]
    fn update_compose(&mut self, message: Message) -> (fx: Vec<Effect>)
        requires
            msg_group(message) == 5,
        ensures
            step(*old(self), message, *final(self), fxv(fx@)),
    {
        match message {
            Message::OpenCompose => {
                proof {
                    reveal(open_compose_post);
                }
                let id = new_draft_id();
                self.open_compose_with(id);
                no_effects()
            },
            Message::OpenComposeReply { .. } => {
                proof {
                    reveal(open_compose_reply_post);
                }
                no_effects()
            },
            Message::CloseCompose => {
                proof {
                    reveal(close_compose_post);
                }
                self.active_view = self.previous_view;
                self.active_nav = NavTarget::View(self.previous_view);
                no_effects()
            },
            Message::ComposeSubjectChanged(v) => {
                proof {
                    reveal(compose_subject_changed_post);
                }
                if !self.compose_sending() {
                    self.compose.subject = v;
                    self.compose.mark_dirty();
                }
                no_effects()
            },
            Message::ComposeToInputChanged(v) => {
                proof {
                    reveal(compose_to_input_changed_post);
                }
                if !self.compose_sending() {
                    self.compose.to_input = v;
                    self.compose.mark_dirty();
                }
                no_effects()
            },
            Message::ComposeCcInputChanged(v) => {
                proof {
                    reveal(compose_cc_input_changed_post);
                }
                if !self.compose_sending() {
                    self.compose.cc_input = v;
                    self.compose.mark_dirty();
                }
                no_effects()
            },
            Message::ComposeBccInputChanged(v) => {
                proof {
                    reveal(compose_bcc_input_changed_post);
                }
                if !self.compose_sending() {
                    self.compose.bcc_input = v;
                    self.compose.mark_dirty();
                }
                no_effects()
            },
            Message::ComposeAddRecipient { field, contact } => self.on_add_recipient(field, contact),
            Message::ComposeRemoveRecipient { field, index } => self.on_remove_recipient(
                field,
                index,
            ),
            Message::ComposeBodyChanged(v) => {
                proof {
                    reveal(compose_body_changed_post);
                }
                if !self.compose_sending() {
                    self.compose.body_markdown = v;
                    self.compose.mark_dirty();
                }
                no_effects()
            },
            Message::ComposeToggleCcBcc => {
                proof {
                    reveal(compose_toggle_cc_bcc_post);
                }
                self.compose.show_cc_bcc = !self.compose.show_cc_bcc;
                no_effects()
            },
            Message::ComposeTogglePreview => {
                proof {
                    reveal(compose_toggle_preview_post);
                }
                self.compose.show_preview = !self.compose.show_preview;
                no_effects()
            },
            Message::ComposeFromChanged { account_index } => {
                proof {
                    reveal(compose_from_changed_post);
                }
                if !self.compose_sending() && account_index < self.accounts.len() {
                    self.compose.from_account_index = account_index;
                    self.compose.mark_dirty();
                }
                no_effects()
            },
            Message::ComposeAttachFile => {
                proof {
                    reveal(compose_attach_file_post);
                }
                no_effects()
            },
            Message::ComposeAttachmentAdded(att) => {
                proof {
                    reveal(compose_attachment_added_post);
                }
                if !self.compose_sending() {
                    self.compose.attachments.push(att);
                    self.compose.mark_dirty();
                }
                no_effects()
            },
            Message::ComposeAttachmentTooLarge => {
                proof {
                    reveal(compose_attachment_too_large_post);
                }
                no_effects()
            },
            Message::ComposeRemoveAttachment(index) => {
                proof {
                    reveal(compose_remove_attachment_post);
                }
                if !self.compose_sending() && index < self.compose.attachments.len() {
                    self.compose.attachments.remove(index);
                    self.compose.mark_dirty();
                }
                no_effects()
            },
            Message::ComposeSaveDraft => {
                proof {
                    reveal(compose_save_draft_post);
                }
                no_effects()
            },
            Message::ComposeAutoSaveTick { generation } => {
                proof {
                    reveal(compose_auto_save_tick_post);
                }
                if self.compose.save_generation == generation {
                    self.compose.dirty = false;
                }
                no_effects()
            },
            Message::ComposeSendDraft => {
                proof {
                    reveal(compose_send_draft_post);
                }
                if self.compose.can_send() {
                    self.compose.send_state = ComposeSendState::Sending;
                }
                no_effects()
            },
            Message::ComposeSendComplete { success, error } => {
                proof {
                    reveal(compose_send_complete_post);
                }
                if success {
                    self.compose.send_state = ComposeSendState::Sent { dismiss_pending: true };
                } else {
                    let e = match error {
                        Some(m) => m,
                        None => owned("send failed"),
                    };
                    self.compose.send_state = ComposeSendState::Failed { error: e };
                }
                no_effects()
            },
            Message::ComposeDismissSentNotice => {
                proof {
                    reveal(compose_dismiss_sent_notice_post);
                }
                match self.compose.send_state {
                    ComposeSendState::Sent { .. } => {
                        self.compose = ComposeState::new();
                        self.active_view = self.previous_view;
                        self.active_nav = NavTarget::View(self.previous_view);
                    },
                    _ => {},
                }
                no_effects()
            },
            Message::ComposeDiscardDraft => {
                proof {
                    reveal(compose_discard_draft_post);
                }
                self.compose = ComposeState::new();
                self.active_view = self.previous_view;
                self.active_nav = NavTarget::View(self.previous_view);
                no_effects()
            },
            _ => {
                proof {
                    assert(false);
                }
                no_effects()
            },
        }
    }

    /// Set the theme preference: store it (with a store) and apply it;
    /// following the system asks for the system scheme.
    #[verifier::rlimit(40)]
    fn on_set_theme_preference(&mut self, pref: ThemePreference) -> (fx: Vec<Effect>)
        ensures
            set_theme_preference_post(*old(self), pref, *final(self), fxv(fx@)),
    {
        proof {
            reveal(set_theme_preference_post);
        }
        self.settings.theme_preference = pref;
        let mut fx: Vec<Effect> = Vec::new();
        if self.store_attached {
            fx.push(persist_effect("theme", owned(pref.as_setting())));
        }
        let ghost first = fxv(fx@);
        assert(first =~= store_fx(
            old(self).store_attached,
            seq![persist("theme"@, preference_text(pref))],
        ));
        let mut tail: Vec<Effect> = Vec::new();
        match pref {
            ThemePreference::Light => {
                self.theme = ThemeConfig::light();
            },
            ThemePreference::Dark => {
                self.theme = ThemeConfig::dark();
            },
            ThemePreference::System => {
                tail.push(Effect::DetectSystemTheme);
            },
        }
        assert(fxv(tail@) =~= if pref == ThemePreference::System {
            seq![EffectView::DetectSystemTheme]
        } else {
            seq![]
        });
        append_effects(&mut fx, tail);
        fx
    }
}

} // verus!
