//! Account and application configuration, and the bundle rows of the
//! settings store, as plain values the state machine reads and edits.

use vstd::prelude::*;

use crate::text::owned;

verus! {

/// How an account authenticates against its mail servers.
#[derive(Debug, Clone, Copy, PartialEq, Eq, Structural)]
pub enum AuthMethod {
    Password,
    OAuth2,
    AppPassword,
}

/// The auth method a settings form value selects: `"oauth2"` and
/// `"app_password"` pick those methods, anything else is a password.
pub open spec fn auth_method_of(v: Seq<char>) -> AuthMethod {
    if v == "oauth2"@ {
        AuthMethod::OAuth2
    } else if v == "app_password"@ {
        AuthMethod::AppPassword
    } else {
        AuthMethod::Password
    }
}

impl AuthMethod {
    /// Parse the auth method from a settings form value.
    pub fn from_form_value(v: &str) -> (m: AuthMethod)
        ensures
            m == auth_method_of(v@),
    {
        if crate::text::str_eq(v, "oauth2") {
            AuthMethod::OAuth2
        } else if crate::text::str_eq(v, "app_password") {
            AuthMethod::AppPassword
        } else {
            AuthMethod::Password
        }
    }
}

/// One configured email account.
#[derive(Debug)]
pub struct AccountConfig {
    pub email: String,
    pub display_name: String,
    pub provider: String,
    pub auth_method: AuthMethod,
    pub imap_host: String,
    pub imap_port: u16,
    pub smtp_host: String,
    pub smtp_port: u16,
}

/// The IMAP port a fresh account form starts with.
pub const DEFAULT_IMAP_PORT: u16 = 993;

/// The SMTP port a fresh account form starts with.
pub const DEFAULT_SMTP_PORT: u16 = 587;

/// A fresh account form: generic provider, password auth, default ports,
/// every text field empty.
pub open spec fn is_empty_account_form(a: AccountConfig) -> bool {
    &&& a.email@.len() == 0
    &&& a.display_name@.len() == 0
    &&& a.provider@ == "generic"@
    &&& a.auth_method == AuthMethod::Password
    &&& a.imap_host@.len() == 0
    &&& a.imap_port == DEFAULT_IMAP_PORT
    &&& a.smtp_host@.len() == 0
    &&& a.smtp_port == DEFAULT_SMTP_PORT
}

/// Create an empty account form with sensible defaults.
pub fn new_empty_account_form() -> (a: AccountConfig)
    ensures
        is_empty_account_form(a),
{
    AccountConfig {
        email: String::new(),
        display_name: String::new(),
        provider: owned("generic"),
        auth_method: AuthMethod::Password,
        imap_host: String::new(),
        imap_port: DEFAULT_IMAP_PORT,
        smtp_host: String::new(),
        smtp_port: DEFAULT_SMTP_PORT,
    }
}

/// Whether an account form holds enough to be saved: an email address
/// with an `@`, and both server hosts.
pub open spec fn account_form_valid(a: AccountConfig) -> bool {
    &&& a.email@.len() > 0
    &&& a.email@.contains('@')
    &&& a.imap_host@.len() > 0
    &&& a.smtp_host@.len() > 0
}

/// Whether the text holds the character `c`.
pub fn str_contains_char(s: &str, c: char) -> (r: bool)
    ensures
        r == s@.contains(c),
{
    let v = crate::text::chars_of(s);
    let mut i: usize = 0;
    while i < v.len()
        invariant
            v@ == s@,
            i <= v.len(),
            forall|k: int| 0 <= k < i ==> v@[k] != c,
        decreases v.len() - i,
    {
        if v[i] == c {
            assert(s@[i as int] == c);
            return true;
        }
        i = i + 1;
    }
    false
}

/// Check an account form before it is saved.
pub fn account_form_is_valid(a: &AccountConfig) -> (r: bool)
    ensures
        r == account_form_valid(*a),
{
    !a.email.as_str().is_empty() && str_contains_char(a.email.as_str(), '@')
        && !a.imap_host.as_str().is_empty() && !a.smtp_host.as_str().is_empty()
}

/// Hours and weekday used by the snooze presets.
#[derive(Debug, Clone, Copy, PartialEq, Eq, Structural)]
pub struct SnoozePresets {
    /// Hour (0-23) for "Tomorrow", "This weekend" and "Next week".
    pub morning_hour: u8,
    /// Hour (0-23) shown as the afternoon preset.
    pub afternoon_hour: u8,
    /// Hour (0-23) for "Later today".
    pub evening_hour: u8,
    /// Weekend day, 0 = Monday .. 6 = Sunday.
    pub weekend_day: u8,
}

impl Default for SnoozePresets {
    fn default() -> (p: Self)
        ensures
            p == (SnoozePresets { morning_hour: 8, afternoon_hour: 13, evening_hour: 18, weekend_day: 5 }),
    {
        SnoozePresets { morning_hour: 8, afternoon_hour: 13, evening_hour: 18, weekend_day: 5 }
    }
}

/// The parts of the application configuration the UI edits: the account
/// list and the snooze presets.
#[derive(Debug)]
pub struct AppConfig {
    pub accounts: Vec<AccountConfig>,
    pub snooze: SnoozePresets,
}

impl Default for AppConfig {
    fn default() -> (c: Self)
        ensures
            c.accounts@.len() == 0,
            c.snooze == (SnoozePresets { morning_hour: 8, afternoon_hour: 13, evening_hour: 18, weekend_day: 5 }),
    {
        AppConfig { accounts: Vec::new(), snooze: SnoozePresets::default() }
    }
}

/// A bundle as the settings store holds it.
#[derive(Debug)]
pub struct BundleRow {
    pub id: String,
    pub category: String,
    pub name: String,
    pub color: String,
    pub badge_color: String,
    /// `"visible"` or `"hidden"`.
    pub visibility: String,
    /// Throttle configuration as JSON.
    pub throttle: String,
    pub sort_order: i64,
}

impl Clone for AccountConfig {
    fn clone(&self) -> (r: Self)
        ensures
            r == *self,
    {
        AccountConfig {
            email: self.email.clone(),
            display_name: self.display_name.clone(),
            provider: self.provider.clone(),
            auth_method: self.auth_method,
            imap_host: self.imap_host.clone(),
            imap_port: self.imap_port,
            smtp_host: self.smtp_host.clone(),
            smtp_port: self.smtp_port,
        }
    }
}

impl Clone for BundleRow {
    fn clone(&self) -> (r: Self)
        ensures
            r == *self,
    {
        BundleRow {
            id: self.id.clone(),
            category: self.category.clone(),
            name: self.name.clone(),
            color: self.color.clone(),
            badge_color: self.badge_color.clone(),
            visibility: self.visibility.clone(),
            throttle: self.throttle.clone(),
            sort_order: self.sort_order,
        }
    }
}

/// The configuration as plain values: the accounts and the presets.
pub struct ConfigView {
    pub accounts: Seq<AccountConfig>,
    pub snooze: SnoozePresets,
}

impl View for AppConfig {
    type V = ConfigView;

    open spec fn view(&self) -> ConfigView {
        ConfigView { accounts: self.accounts@, snooze: self.snooze }
    }
}

impl Clone for AppConfig {
    fn clone(&self) -> (r: Self)
        ensures
            r@ == self@,
    {
        let accounts = self.accounts.clone();
        assert(accounts@ =~= self.accounts@);
        AppConfig { accounts, snooze: self.snooze }
    }
}

} // verus!
