//! Inboxly theme system -- BigTop design tokens.
//!
//! ```text
//! ThemePreference (config)     SystemColorScheme (portal)
//!        \                        /
//!         +--- ThemeConfig ------+
//!              |
//!         ThemeColors
//! ```

pub mod color;
pub mod dimensions;
pub mod palette;
pub mod system;
pub mod typography;

pub use color::{Color, ThemeColors};
pub use system::{SystemColorScheme, SystemThemeError};

use vstd::prelude::*;

use color::{dark_colors, light_colors, rgb, css_text};
use crate::text::str_eq;

verus! {

/// Nav drawer item height (alias of the dimensions constant).
pub const NAV_ITEM_HEIGHT: u32 = 48;

/// The primary views that drive toolbar colour and content.
#[derive(Debug, Clone, Copy, PartialEq, Eq, Hash, Structural)]
pub enum ActiveView {
    Inbox,
    Snoozed,
    Done,
    /// Full-screen compose view. The back arrow returns to the previous view.
    Compose,
    /// Full-screen settings view. Toolbar turns grey, hamburger becomes back arrow.
    Settings,
}

impl Default for ActiveView {
    fn default() -> (v: Self)
        ensures
            v == ActiveView::Inbox,
    {
        ActiveView::Inbox
    }
}

/// Toolbar title of a view.
pub open spec fn view_title(v: ActiveView) -> Seq<char> {
    match v {
        ActiveView::Inbox => "Inbox"@,
        ActiveView::Snoozed => "Snoozed"@,
        ActiveView::Done => "Done"@,
        ActiveView::Compose => "Compose"@,
        ActiveView::Settings => "Settings"@,
    }
}

/// Light-theme toolbar colour of a view.
pub open spec fn light_toolbar(v: ActiveView) -> Color {
    match v {
        ActiveView::Inbox => rgb(0x42, 0x85, 0xf4),
        ActiveView::Snoozed => rgb(0xef, 0x6c, 0x00),
        ActiveView::Done => rgb(0x0f, 0x9d, 0x58),
        ActiveView::Compose => rgb(0x55, 0x4e, 0x91),
        ActiveView::Settings => rgb(0x45, 0x5a, 0x64),
    }
}

/// Toolbar colour of a view under a theme's colour tokens (Compose shares
/// the Settings colour).
pub open spec fn themed_toolbar(v: ActiveView, c: ThemeColors) -> Color {
    match v {
        ActiveView::Inbox => c.toolbar_inbox,
        ActiveView::Snoozed => c.toolbar_snoozed,
        ActiveView::Done => c.toolbar_done,
        ActiveView::Compose => c.toolbar_settings,
        ActiveView::Settings => c.toolbar_settings,
    }
}

impl ActiveView {
    /// Display name shown in the toolbar title.
    pub fn title(&self) -> (r: &'static str)
        ensures
            r@ == view_title(*self),
    {
        match self {
            ActiveView::Inbox => "Inbox",
            ActiveView::Snoozed => "Snoozed",
            ActiveView::Done => "Done",
            ActiveView::Compose => "Compose",
            ActiveView::Settings => "Settings",
        }
    }

    /// Toolbar background colour for this view (light theme).
    pub fn toolbar_color(&self) -> (c: Color)
        ensures
            c == light_toolbar(*self),
    {
        match self {
            ActiveView::Inbox => color_from_hex(0x42, 0x85, 0xf4),
            ActiveView::Snoozed => color_from_hex(0xef, 0x6c, 0x00),
            ActiveView::Done => color_from_hex(0x0f, 0x9d, 0x58),
            ActiveView::Compose => color_from_hex(0x55, 0x4e, 0x91),
            ActiveView::Settings => color_from_hex(0x45, 0x5a, 0x64),
        }
    }

    /// Toolbar background colour for this view, theme-aware.
    pub fn toolbar_color_themed(&self, theme: &ThemeConfig) -> (c: Color)
        ensures
            c == themed_toolbar(*self, theme.colors),
    {
        let colors = theme.colors();
        match self {
            ActiveView::Inbox => colors.toolbar_inbox,
            ActiveView::Snoozed => colors.toolbar_snoozed,
            ActiveView::Done => colors.toolbar_done,
            ActiveView::Compose => colors.toolbar_settings,
            ActiveView::Settings => colors.toolbar_settings,
        }
    }

    /// CSS colour string for the toolbar background (theme-aware).
    pub fn toolbar_css(&self, theme: &ThemeConfig) -> (s: String)
        ensures
            s@ == css_text(themed_toolbar(*self, theme.colors)),
    {
        self.toolbar_color_themed(theme).to_css()
    }
}

/// An opaque colour from RGB bytes.
pub fn color_from_hex(r: u8, g: u8, b: u8) -> (c: Color)
    ensures
        c == rgb(r, g, b),
{
    Color::from_rgb8(r, g, b)
}

/// Background colour (light theme).
pub fn bg_color() -> (c: Color)
    ensures
        c == rgb(0xec, 0xec, 0xec),
{
    color_from_hex(0xec, 0xec, 0xec)
}

/// Surface colour (light theme).
pub fn surface_color() -> (c: Color)
    ensures
        c == rgb(0xff, 0xff, 0xff),
{
    Color::white()
}

/// Primary text colour (light theme).
pub fn primary_text() -> (c: Color)
    ensures
        c == rgb(0x21, 0x21, 0x21),
{
    color_from_hex(0x21, 0x21, 0x21)
}

/// Secondary text colour (light theme).
pub fn secondary_text() -> (c: Color)
    ensures
        c == rgb(0x75, 0x75, 0x75),
{
    color_from_hex(0x75, 0x75, 0x75)
}

/// Divider colour (light theme).
pub fn divider_color() -> (c: Color)
    ensures
        c == rgb(0xe0, 0xe0, 0xe0),
{
    color_from_hex(0xe0, 0xe0, 0xe0)
}

/// Selected item background (light theme).
pub fn selected_bg() -> (c: Color)
    ensures
        c == rgb(0xeb, 0xf2, 0xff),
{
    color_from_hex(0xeb, 0xf2, 0xff)
}

/// Title and badge colour pair for a bundle category (string-based lookup).
#[derive(Debug, Clone, Copy, PartialEq, Eq, Structural)]
pub struct CategoryColor {
    /// Title text colour.
    pub title: Color,
    /// Badge background colour.
    pub badge: Color,
}

/// Colours of a bundle category by its display name; unknown names get the
/// secondary-text title over a divider-coloured badge.
pub open spec fn category_color_spec(name: Seq<char>) -> CategoryColor {
    if name == "Social"@ {
        CategoryColor { title: rgb(0xd2, 0x3f, 0x31), badge: rgb(0xfa, 0xeb, 0xea) }
    } else if name == "Promos"@ {
        CategoryColor { title: rgb(0x00, 0xac, 0xc1), badge: rgb(0xe5, 0xf6, 0xf9) }
    } else if name == "Updates"@ {
        CategoryColor { title: rgb(0xf4, 0x51, 0x1e), badge: rgb(0xfe, 0xed, 0xe8) }
    } else if name == "Finance"@ {
        CategoryColor { title: rgb(0x55, 0x8b, 0x2f), badge: rgb(0xee, 0xf3, 0xea) }
    } else if name == "Purchases"@ {
        CategoryColor { title: rgb(0x6d, 0x4c, 0x41), badge: rgb(0xf0, 0xed, 0xec) }
    } else if name == "Travel"@ {
        CategoryColor { title: rgb(0x8e, 0x24, 0xaa), badge: rgb(0xf3, 0xe9, 0xf6) }
    } else if name == "Forums"@ {
        CategoryColor { title: rgb(0x39, 0x49, 0xab), badge: rgb(0xeb, 0xec, 0xf6) }
    } else if name == "Low Priority"@ {
        CategoryColor { title: rgb(0x21, 0x21, 0x21), badge: rgb(0xe5, 0xe5, 0xe5) }
    } else {
        CategoryColor { title: rgb(0x75, 0x75, 0x75), badge: rgb(0xe0, 0xe0, 0xe0) }
    }
}

fn cc(t: (u8, u8, u8), b: (u8, u8, u8)) -> (c: CategoryColor)
    ensures
        c == (CategoryColor { title: rgb(t.0, t.1, t.2), badge: rgb(b.0, b.1, b.2) }),
{
    CategoryColor { title: color_from_hex(t.0, t.1, t.2), badge: color_from_hex(b.0, b.1, b.2) }
}

/// Get bundle category colours by display name.
pub fn category_color(category: &str) -> (c: CategoryColor)
    ensures
        c == category_color_spec(category@),
{
    if str_eq(category, "Social") {
        cc((0xd2, 0x3f, 0x31), (0xfa, 0xeb, 0xea))
    } else if str_eq(category, "Promos") {
        cc((0x00, 0xac, 0xc1), (0xe5, 0xf6, 0xf9))
    } else if str_eq(category, "Updates") {
        cc((0xf4, 0x51, 0x1e), (0xfe, 0xed, 0xe8))
    } else if str_eq(category, "Finance") {
        cc((0x55, 0x8b, 0x2f), (0xee, 0xf3, 0xea))
    } else if str_eq(category, "Purchases") {
        cc((0x6d, 0x4c, 0x41), (0xf0, 0xed, 0xec))
    } else if str_eq(category, "Travel") {
        cc((0x8e, 0x24, 0xaa), (0xf3, 0xe9, 0xf6))
    } else if str_eq(category, "Forums") {
        cc((0x39, 0x49, 0xab), (0xeb, 0xec, 0xf6))
    } else if str_eq(category, "Low Priority") {
        cc((0x21, 0x21, 0x21), (0xe5, 0xe5, 0xe5))
    } else {
        CategoryColor { title: secondary_text(), badge: divider_color() }
    }
}

/// The user's theme preference.
#[derive(Debug, Clone, Copy, PartialEq, Eq, Structural)]
pub enum ThemePreference {
    /// Follow the system colour scheme.
    System,
    /// Always light.
    Light,
    /// Always dark.
    Dark,
}

/// The preference a stored `theme` setting names: `"light"`, `"dark"` or
/// `"system"`; a missing or unknown value means the system preference.
pub open spec fn preference_of_setting(v: Option<Seq<char>>) -> ThemePreference {
    match v {
        Some(s) => if s == "light"@ {
            ThemePreference::Light
        } else if s == "dark"@ {
            ThemePreference::Dark
        } else {
            ThemePreference::System
        },
        None => ThemePreference::System,
    }
}

/// Interpret a stored `theme` setting value.
pub fn preference_from_setting(v: Option<&str>) -> (p: ThemePreference)
    ensures
        p == preference_of_setting(match v {
            Some(s) => Some(s@),
            None => None,
        }),
{
    match v {
        Some(s) => {
            if str_eq(s, "light") {
                ThemePreference::Light
            } else if str_eq(s, "dark") {
                ThemePreference::Dark
            } else {
                ThemePreference::System
            }
        },
        None => ThemePreference::System,
    }
}

/// The stored text of a preference.
pub open spec fn preference_text(p: ThemePreference) -> Seq<char> {
    match p {
        ThemePreference::System => "system"@,
        ThemePreference::Light => "light"@,
        ThemePreference::Dark => "dark"@,
    }
}

impl ThemePreference {
    /// The text stored in the settings table for this preference.
    pub fn as_setting(&self) -> (r: &'static str)
        ensures
            r@ == preference_text(*self),
    {
        match self {
            ThemePreference::System => "system",
            ThemePreference::Light => "light",
            ThemePreference::Dark => "dark",
        }
    }
}

/// Reads settings by key; implemented over the settings store.
pub trait SettingsReader {
    /// Read a setting value by key. Returns `None` if the key doesn't exist.
    fn get_setting(&self, key: &str) -> Result<Option<String>, String>;
}

/// Writes settings by key; implemented over the settings store.
pub trait SettingsWriter {
    /// Write a setting key-value pair. Upserts (insert or replace).
    fn set_setting(&self, key: &str, value: &str) -> Result<(), String>;
}

/// Framework-agnostic theme configuration: a set of colour tokens.
#[derive(Debug, Clone, Copy, PartialEq, Eq, Structural)]
pub struct ThemeConfig {
    /// The colour tokens for this theme variant.
    pub colors: ThemeColors,
}

/// Whether the system scheme detection result asks for the dark theme
/// (detection failures fall back to light).
pub open spec fn system_wants_dark(r: Result<SystemColorScheme, SystemThemeError>) -> bool {
    r == Ok::<SystemColorScheme, SystemThemeError>(SystemColorScheme::Dark)
}

impl ThemeConfig {
    /// Create a theme from the given colour tokens.
    pub fn new(colors: ThemeColors) -> (t: Self)
        ensures
            t.colors == colors,
    {
        ThemeConfig { colors }
    }

    /// BigTop light theme.
    pub fn light() -> (t: Self)
        ensures
            t.colors == light_colors(),
    {
        Self::new(ThemeColors::light())
    }

    /// BigTop dark theme.
    pub fn dark() -> (t: Self)
        ensures
            t.colors == dark_colors(),
    {
        Self::new(ThemeColors::dark())
    }

    /// Get the colour tokens.
    pub fn colors(&self) -> (c: &ThemeColors)
        ensures
            *c == self.colors,
    {
        &self.colors
    }

    /// Whether this is a dark theme.
    pub fn is_dark(&self) -> (r: bool)
        ensures
            r == self.colors.is_dark,
    {
        self.colors.is_dark
    }

    /// The theme matching a system colour scheme detection result: dark
    /// when the system prefers dark, light otherwise (also when detection
    /// failed).
    pub fn from_system_scheme(r: &Result<SystemColorScheme, SystemThemeError>) -> (t: Self)
        ensures
            t.colors == if system_wants_dark(*r) {
                dark_colors()
            } else {
                light_colors()
            },
    {
        match r {
            Ok(SystemColorScheme::Dark) => Self::dark(),
            _ => Self::light(),
        }
    }

    /// Resolve the theme from a user preference; `System` follows the given
    /// system detection result.
    pub fn from_preference(
        pref: ThemePreference,
        system: &Result<SystemColorScheme, SystemThemeError>,
    ) -> (t: Self)
        ensures
            t.colors == match pref {
                ThemePreference::Light => light_colors(),
                ThemePreference::Dark => dark_colors(),
                ThemePreference::System => if system_wants_dark(*system) {
                    dark_colors()
                } else {
                    light_colors()
                },
            },
    {
        match pref {
            ThemePreference::Light => Self::light(),
            ThemePreference::Dark => Self::dark(),
            ThemePreference::System => Self::from_system_scheme(system),
        }
    }

    /// Resolve the theme from the `theme` key of a settings store; a read
    /// error, a missing key or an unknown value follow the system result.
    pub fn from_settings<S: SettingsReader>(
        settings: &S,
        system: &Result<SystemColorScheme, SystemThemeError>,
    ) -> (t: Self)
        ensures
            t.colors == light_colors() || t.colors == dark_colors(),
    {
        let stored = settings.get_setting("theme");
        Self::from_stored_setting(&stored, system)
    }

    /// The theme for a `theme` setting as read from the store.
    pub fn from_stored_setting(
        stored: &Result<Option<String>, String>,
        system: &Result<SystemColorScheme, SystemThemeError>,
    ) -> (t: Self)
        ensures
            t.colors == match preference_of_setting(match stored {
                Ok(Some(s)) => Some(s@),
                _ => None,
            }) {
                ThemePreference::Light => light_colors(),
                ThemePreference::Dark => dark_colors(),
                ThemePreference::System => if system_wants_dark(*system) {
                    dark_colors()
                } else {
                    light_colors()
                },
            },
    {
        let pref = match stored {
            Ok(Some(s)) => preference_from_setting(Some(s.as_str())),
            _ => ThemePreference::System,
        };
        Self::from_preference(pref, system)
    }

    /// Toggle between light and dark themes.
    pub fn toggle(&self) -> (t: Self)
        ensures
            t.colors == if self.colors.is_dark {
                light_colors()
            } else {
                dark_colors()
            },
    {
        if self.colors.is_dark {
            Self::light()
        } else {
            Self::dark()
        }
    }

    /// The setting value this theme is saved as: `"dark"` or `"light"`.
    pub fn preference_value(&self) -> (r: &'static str)
        ensures
            r@ == if self.colors.is_dark {
                "dark"@
            } else {
                "light"@
            },
    {
        if self.colors.is_dark {
            "dark"
        } else {
            "light"
        }
    }

    /// Save the current theme preference to the settings store.
    pub fn save_preference<W: SettingsWriter>(&self, settings: &W) -> Result<(), String> {
        settings.set_setting("theme", self.preference_value())
    }

    /// Reset to system theme detection (removes manual override).
    pub fn reset_to_system<W: SettingsWriter>(settings: &W) -> Result<(), String> {
        settings.set_setting("theme", "system")
    }
}

/// Toggling the theme twice gives back the theme's darkness.
pub proof fn law_toggle_involution(t: ThemeConfig)
    requires
        t.colors == light_colors() || t.colors == dark_colors(),
    ensures
        ({
            let once = if t.colors.is_dark { light_colors() } else { dark_colors() };
            let twice = if once.is_dark { light_colors() } else { dark_colors() };
            twice == t.colors
        }),
{
}

} // verus!
