//! Building the application state, and reading the active account.

use vstd::prelude::*;

use crate::app::{Effect, EffectView, Inboxly, fxv};
use crate::compose::{ComposeState, is_blank};
use crate::config::{AccountConfig, AppConfig, SnoozePresets};
use crate::nav::{NavBundleCategory, NavTarget, default_bundle_categories, default_category_names};
use crate::state::{MenuState, SettingsState, SnoozeState, is_initial_settings, menus_closed};
use crate::text::{owned, push_str};
use crate::theme::{ActiveView, SystemColorScheme, SystemThemeError, ThemeConfig, system_wants_dark, view_title};
use crate::theme::color::{dark_colors, light_colors};
use crate::undo::UndoState;

verus! {

/// The state a fresh start shows, apart from the theme, the accounts and
/// whether a store is attached: the inbox with the drawer open, the
/// default bundle categories, no feed yet, nothing pending and every panel
/// at its defaults.
pub open spec fn is_fresh(s: Inboxly) -> bool {
    &&& s.active_view == ActiveView::Inbox
    &&& s.previous_view == ActiveView::Inbox
    &&& s.active_nav == NavTarget::View(ActiveView::Inbox)
    &&& s.drawer_open
    &&& s.bundle_categories@.map_values(|c: NavBundleCategory| c.name@) == default_category_names()
    &&& s.active_account_index == 0
    &&& !s.account_switcher_open
    &&& s.feed_sections@.len() == 0
    &&& s.open_thread_id is None
    &&& s.undo_state.pending() is None
    &&& !s.undo_state.timed()
    &&& s.undo_state.gen() == 0
    &&& menus_closed(s.menus)
    &&& s.config.accounts@.len() == 0
    &&& s.config.snooze == (SnoozePresets {
        morning_hour: 8,
        afternoon_hour: 13,
        evening_hour: 18,
        weekend_day: 5,
    })
    &&& is_initial_settings(s.settings)
    &&& s.expanded_bundles@.len() == 0
    &&& s.snooze.picker_thread is None
    &&& is_blank(s.compose)
}

/// The theme a system colour scheme detection result selects.
pub open spec fn system_theme(r: Result<SystemColorScheme, SystemThemeError>) -> ThemeConfig {
    ThemeConfig {
        colors: if system_wants_dark(r) {
            dark_colors()
        } else {
            light_colors()
        },
    }
}

/// The text shown for the active account when there is none.
pub open spec fn no_account_text() -> Seq<char> {
    "No account"@
}

impl Default for Inboxly {
    fn default() -> (s: Self)
        ensures
            is_fresh(s),
            s.accounts@.len() == 0,
            s.theme.colors == light_colors(),
            !s.store_attached,
    {
        Inboxly {
            active_view: ActiveView::Inbox,
            previous_view: ActiveView::Inbox,
            active_nav: NavTarget::View(ActiveView::Inbox),
            drawer_open: true,
            bundle_categories: default_bundle_categories(),
            accounts: Vec::new(),
            active_account_index: 0,
            account_switcher_open: false,
            theme: ThemeConfig::light(),
            store_attached: false,
            feed_sections: Vec::new(),
            open_thread_id: None,
            undo_state: UndoState::new(),
            menus: MenuState::new(),
            config: AppConfig::default(),
            settings: SettingsState::new(),
            expanded_bundles: Vec::new(),
            snooze: SnoozeState::new(),
            compose: ComposeState::new(),
        }
    }
}

impl Inboxly {
    /// Create the app with the theme the system colour scheme detection
    /// selected (light when detection failed).
    pub fn new(system: Result<SystemColorScheme, SystemThemeError>) -> (s: Self)
        ensures
            is_fresh(s),
            s.accounts@.len() == 0,
            s.theme == system_theme(system),
            !s.store_attached,
    {
        let mut app = Self::default();
        app.theme = ThemeConfig::from_system_scheme(&system);
        let _ = app.reload_feed();
        app
    }

    /// Create the app with pre-loaded account configs.
    pub fn with_accounts(accounts: Vec<AccountConfig>) -> (s: Self)
        ensures
            is_fresh(s),
            s.accounts@ == accounts@,
            s.theme.colors == light_colors(),
            !s.store_attached,
    {
        let mut app = Self::default();
        app.accounts = accounts;
        app
    }

    /// Create the app with a store attached and the theme the system
    /// colour scheme detection selected; the returned effects ask the
    /// store for the feed.
    pub fn with_store(system: Result<SystemColorScheme, SystemThemeError>) -> (r: (Self, Vec<Effect>))
        ensures
            is_fresh(r.0),
            r.0.accounts@.len() == 0,
            r.0.theme == system_theme(system),
            r.0.store_attached,
            fxv(r.1@) == seq![EffectView::ReloadFeed],
    {
        let mut app = Self::default();
        app.theme = ThemeConfig::from_system_scheme(&system);
        app.store_attached = true;
        let fx = app.reload_feed();
        (app, fx)
    }

    /// The active account, if the index points at one.
    pub fn active_account(&self) -> (r: Option<&AccountConfig>)
        ensures
            match r {
                Some(a) => self.active_account_index < self.accounts@.len() && *a
                    == self.accounts@[self.active_account_index as int],
                None => self.active_account_index >= self.accounts@.len(),
            },
    {
        if self.active_account_index < self.accounts.len() {
            Some(&self.accounts[self.active_account_index])
        } else {
            None
        }
    }

    /// The email address of the active account, or "No account".
    pub fn active_email(&self) -> (r: &str)
        ensures
            r@ == if self.active_account_index < self.accounts@.len() {
                self.accounts@[self.active_account_index as int].email@
            } else {
                no_account_text()
            },
    {
        match self.active_account() {
            Some(a) => a.email.as_str(),
            None => "No account",
        }
    }

    /// The display name of the active account, its email address when the
    /// name is empty, or "No account".
    pub fn active_display_name(&self) -> (r: &str)
        ensures
            r@ == if self.active_account_index < self.accounts@.len() {
                let a = self.accounts@[self.active_account_index as int];
                if a.display_name@.len() == 0 {
                    a.email@
                } else {
                    a.display_name@
                }
            } else {
                no_account_text()
            },
    {
        match self.active_account() {
            Some(a) => {
                if a.display_name.as_str().is_empty() {
                    a.email.as_str()
                } else {
                    a.display_name.as_str()
                }
            },
            None => "No account",
        }
    }

    /// Window title: "Inboxly -- " and the active view's title.
    pub fn title(&self) -> (r: String)
        ensures
            r@ == "Inboxly -- "@ + view_title(self.active_view),
    {
        let mut t = owned("Inboxly -- ");
        push_str(&mut t, self.active_view.title());
        t
    }
}

} // verus!
