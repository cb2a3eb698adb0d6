use inboxly_ui::theme::color::{Color, ThemeColors, hex};
use inboxly_ui::theme::dimensions::{
    AVATAR_DIAMETER, DEFAULT_PADDING, DIVIDER_THICKNESS, NAV_DRAWER_WIDTH, TOOLBAR_HEIGHT,
};
use inboxly_ui::theme::palette::{
    AVATAR_COLORS, BundleCategory, color_from_packed, finance, for_category, for_category_str,
    for_letter, forums, low_priority, promos, purchases, social, travel, updates,
};
use inboxly_ui::theme::system::{SystemColorScheme, SystemThemeError, scheme_from_portal_value};
use inboxly_ui::theme::{
    ActiveView, NAV_ITEM_HEIGHT, SettingsReader, SettingsWriter, ThemeConfig, ThemePreference,
    category_color, color_from_hex, preference_from_setting, secondary_text,
};

fn unit(x: u8) -> f32 {
    x as f32 / 255.0
}

fn assert_color_hex(color: Color, hex_str: &str) {
    let expected = hex(hex_str);
    assert!(
        color.r == expected.r && color.g == expected.g && color.b == expected.b,
        "expected {hex_str} ({expected:?}), got {color:?}"
    );
}

fn no_system() -> Result<SystemColorScheme, SystemThemeError> {
    Err(SystemThemeError::DBusUnavailable("no session bus".to_string()))
}

// -- Legacy theme helpers --

#[test]
fn theme_color_from_hex_black() {
    assert_eq!(color_from_hex(0, 0, 0), Color::black());
}

#[test]
fn theme_color_from_hex_white() {
    assert_eq!(color_from_hex(255, 255, 255), Color::white());
}

#[test]
fn theme_inbox_toolbar_is_blue() {
    let c = ActiveView::Inbox.toolbar_color();
    assert!((unit(c.r) - 66.0 / 255.0).abs() < 0.01);
    assert!((unit(c.g) - 133.0 / 255.0).abs() < 0.01);
    assert!((unit(c.b) - 244.0 / 255.0).abs() < 0.01);
}

#[test]
fn theme_snoozed_toolbar_is_orange() {
    let c = ActiveView::Snoozed.toolbar_color();
    assert!((unit(c.r) - 239.0 / 255.0).abs() < 0.01);
    assert!((unit(c.g) - 108.0 / 255.0).abs() < 0.01);
    assert!(unit(c.b) < 0.01);
}

#[test]
fn theme_done_toolbar_is_green() {
    let c = ActiveView::Done.toolbar_color();
    assert!((unit(c.r) - 15.0 / 255.0).abs() < 0.01);
    assert!((unit(c.g) - 157.0 / 255.0).abs() < 0.01);
    assert!((unit(c.b) - 88.0 / 255.0).abs() < 0.01);
}

#[test]
fn theme_social_category_color() {
    let cc = category_color("Social");
    assert!((unit(cc.title.r) - f32::from(0xd2_u8) / 255.0).abs() < 0.01);
    assert!((unit(cc.title.g) - f32::from(0x3f_u8) / 255.0).abs() < 0.01);
    assert!((unit(cc.title.b) - f32::from(0x31_u8) / 255.0).abs() < 0.01);
}

#[test]
fn theme_unknown_category_gets_default() {
    let cc = category_color("UnknownCategory");
    assert_eq!(cc.title, secondary_text());
}

#[test]
fn theme_layout_constants_match_spec() {
    assert!((TOOLBAR_HEIGHT as f32 - 56.0).abs() < f32::EPSILON);
    assert!((NAV_DRAWER_WIDTH as f32 - 264.0).abs() < f32::EPSILON);
    assert!((NAV_ITEM_HEIGHT as f32 - 48.0).abs() < f32::EPSILON);
    assert!((AVATAR_DIAMETER as f32 - 40.0).abs() < f32::EPSILON);
    assert!((DEFAULT_PADDING as f32 - 16.0).abs() < f32::EPSILON);
    assert!((DIVIDER_THICKNESS as f32 - 1.0).abs() < f32::EPSILON);
}

// -- Theme module --

#[test]
fn mod_color_from_hex_black() {
    assert_eq!(color_from_hex(0, 0, 0), Color::black());
}

#[test]
fn mod_color_from_hex_white() {
    assert_eq!(color_from_hex(255, 255, 255), Color::white());
}

#[test]
fn mod_inbox_toolbar_is_blue() {
    let c = ActiveView::Inbox.toolbar_color();
    assert_eq!((c.r, c.g, c.b), (66, 133, 244));
}

#[test]
fn mod_snoozed_toolbar_is_orange() {
    let c = ActiveView::Snoozed.toolbar_color();
    assert_eq!((c.r, c.g, c.b), (239, 108, 0));
}

#[test]
fn mod_done_toolbar_is_green() {
    let c = ActiveView::Done.toolbar_color();
    assert_eq!((c.r, c.g, c.b), (15, 157, 88));
}

#[test]
fn mod_social_category_color() {
    let cc = category_color("Social");
    assert_eq!((cc.title.r, cc.title.g, cc.title.b), (0xd2, 0x3f, 0x31));
}

#[test]
fn mod_unknown_category_gets_default() {
    let cc = category_color("UnknownCategory");
    assert_eq!(cc.title, secondary_text());
}

#[test]
fn mod_layout_constants_match_spec() {
    assert!((TOOLBAR_HEIGHT as f32 - 56.0).abs() < f32::EPSILON);
    assert!((NAV_DRAWER_WIDTH as f32 - 264.0).abs() < f32::EPSILON);
    assert!((NAV_ITEM_HEIGHT as f32 - 48.0).abs() < f32::EPSILON);
    assert!((AVATAR_DIAMETER as f32 - 40.0).abs() < f32::EPSILON);
    assert!((DEFAULT_PADDING as f32 - 16.0).abs() < f32::EPSILON);
    assert!((DIVIDER_THICKNESS as f32 - 1.0).abs() < f32::EPSILON);
}

#[test]
fn light_theme_creates_successfully() {
    assert!(!ThemeConfig::light().is_dark());
}

#[test]
fn dark_theme_creates_successfully() {
    assert!(ThemeConfig::dark().is_dark());
}

#[test]
fn toggle_light_to_dark() {
    assert!(ThemeConfig::light().toggle().is_dark());
}

#[test]
fn toggle_dark_to_light() {
    assert!(!ThemeConfig::dark().toggle().is_dark());
}

#[test]
fn toggle_is_involution() {
    let original = ThemeConfig::light();
    let toggled_twice = original.toggle().toggle();
    assert_eq!(original.is_dark(), toggled_twice.is_dark());
    assert_eq!(original, toggled_twice);
}

#[test]
fn colors_returns_correct_tokens() {
    let light = ThemeConfig::light();
    assert_eq!(light.colors().background, ThemeColors::light().background);
}

#[test]
fn dark_colors_returns_correct_tokens() {
    let dark = ThemeConfig::dark();
    assert_eq!(dark.colors().background, ThemeColors::dark().background);
}

#[test]
fn themed_toolbar_color_uses_theme_values() {
    let dark = ThemeConfig::dark();
    assert_eq!(ActiveView::Inbox.toolbar_color_themed(&dark), ThemeColors::dark().toolbar_inbox);
}

#[test]
fn toolbar_css_returns_hex_string() {
    let light = ThemeConfig::light();
    assert_eq!(ActiveView::Inbox.toolbar_css(&light), "#4285f4");
}

struct MockSettings {
    value: Option<String>,
}

impl SettingsReader for MockSettings {
    fn get_setting(&self, _key: &str) -> Result<Option<String>, String> {
        Ok(self.value.clone())
    }
}

impl SettingsWriter for MockSettings {
    fn set_setting(&self, _key: &str, _value: &str) -> Result<(), String> {
        Ok(())
    }
}

#[test]
fn from_preference_light() {
    assert!(!ThemeConfig::from_preference(ThemePreference::Light, &no_system()).is_dark());
}

#[test]
fn from_preference_dark() {
    assert!(ThemeConfig::from_preference(ThemePreference::Dark, &no_system()).is_dark());
}

#[test]
fn from_preference_system_follows_detection() {
    assert!(ThemeConfig::from_preference(ThemePreference::System, &Ok(SystemColorScheme::Dark)).is_dark());
    assert!(!ThemeConfig::from_preference(ThemePreference::System, &Ok(SystemColorScheme::Light)).is_dark());
    assert!(!ThemeConfig::from_preference(ThemePreference::System, &no_system()).is_dark());
}

#[test]
fn from_settings_dark() {
    let settings = MockSettings { value: Some("dark".to_owned()) };
    assert!(ThemeConfig::from_settings(&settings, &no_system()).is_dark());
}

#[test]
fn from_settings_light() {
    let settings = MockSettings { value: Some("light".to_owned()) };
    assert!(!ThemeConfig::from_settings(&settings, &Ok(SystemColorScheme::Dark)).is_dark());
}

#[test]
fn from_settings_missing_key_defaults_to_system() {
    let settings = MockSettings { value: None };
    assert!(ThemeConfig::from_settings(&settings, &Ok(SystemColorScheme::Dark)).is_dark());
    assert!(!ThemeConfig::from_settings(&settings, &no_system()).is_dark());
}

#[test]
fn from_settings_invalid_value_defaults_to_system() {
    let settings = MockSettings { value: Some("purple".to_owned()) };
    assert!(ThemeConfig::from_settings(&settings, &Ok(SystemColorScheme::Dark)).is_dark());
}

#[test]
fn save_and_reset_preference_succeed() {
    let settings = MockSettings { value: None };
    assert!(ThemeConfig::dark().save_preference(&settings).is_ok());
    assert!(ThemeConfig::reset_to_system(&settings).is_ok());
    assert_eq!(ThemeConfig::dark().preference_value(), "dark");
    assert_eq!(ThemeConfig::light().preference_value(), "light");
}

#[test]
fn stored_preference_values() {
    assert_eq!(preference_from_setting(Some("light")), ThemePreference::Light);
    assert_eq!(preference_from_setting(Some("dark")), ThemePreference::Dark);
    assert_eq!(preference_from_setting(Some("system")), ThemePreference::System);
    assert_eq!(preference_from_setting(None), ThemePreference::System);
    assert_eq!(ThemePreference::Dark.as_setting(), "dark");
}

#[test]
fn mod_view_titles() {
    assert_eq!(ActiveView::Inbox.title(), "Inbox");
    assert_eq!(ActiveView::Snoozed.title(), "Snoozed");
    assert_eq!(ActiveView::Done.title(), "Done");
    assert_eq!(ActiveView::Settings.title(), "Settings");
}

#[test]
fn app_view_titles() {
    assert_eq!(ActiveView::Inbox.title(), "Inbox");
    assert_eq!(ActiveView::Snoozed.title(), "Snoozed");
    assert_eq!(ActiveView::Done.title(), "Done");
    assert_eq!(ActiveView::Settings.title(), "Settings");
}

#[test]
fn toolbar_color_changes_with_view() {
    let inbox_color = ActiveView::Inbox.toolbar_color();
    let snoozed_color = ActiveView::Snoozed.toolbar_color();
    let done_color = ActiveView::Done.toolbar_color();
    assert_ne!(inbox_color, snoozed_color);
    assert_ne!(inbox_color, done_color);
    assert_ne!(snoozed_color, done_color);
}

#[test]
fn settings_toolbar_distinct_from_all_views() {
    let settings_color = ActiveView::Settings.toolbar_color();
    assert_ne!(settings_color, ActiveView::Inbox.toolbar_color());
    assert_ne!(settings_color, ActiveView::Snoozed.toolbar_color());
    assert_ne!(settings_color, ActiveView::Done.toolbar_color());
}

// -- Colour tokens --

#[test]
fn light_theme_background() {
    assert_color_hex(ThemeColors::light().background, "#ececec");
}

#[test]
fn light_theme_surface() {
    assert_color_hex(ThemeColors::light().surface, "#ffffff");
}

#[test]
fn light_theme_surface_selected() {
    assert_color_hex(ThemeColors::light().surface_selected, "#ebf2ff");
}

#[test]
fn light_theme_text_primary() {
    assert_color_hex(ThemeColors::light().text_primary, "#212121");
}

#[test]
fn light_theme_text_secondary() {
    assert_color_hex(ThemeColors::light().text_secondary, "#757575");
}

#[test]
fn light_theme_divider() {
    assert_color_hex(ThemeColors::light().divider, "#e0e0e0");
}

#[test]
fn light_theme_toolbar_inbox() {
    assert_color_hex(ThemeColors::light().toolbar_inbox, "#4285f4");
}

#[test]
fn light_theme_toolbar_done() {
    assert_color_hex(ThemeColors::light().toolbar_done, "#0f9d58");
}

#[test]
fn light_theme_toolbar_snoozed() {
    assert_color_hex(ThemeColors::light().toolbar_snoozed, "#ef6c00");
}

#[test]
fn light_theme_is_not_dark() {
    assert!(!ThemeColors::light().is_dark);
}

#[test]
fn dark_theme_background() {
    assert_color_hex(ThemeColors::dark().background, "#121212");
}

#[test]
fn dark_theme_surface() {
    assert_color_hex(ThemeColors::dark().surface, "#1e1e1e");
}

#[test]
fn dark_theme_surface_selected() {
    assert_color_hex(ThemeColors::dark().surface_selected, "#1a2744");
}

#[test]
fn dark_theme_text_primary() {
    assert_color_hex(ThemeColors::dark().text_primary, "#e0e0e0");
}

#[test]
fn dark_theme_text_secondary() {
    assert_color_hex(ThemeColors::dark().text_secondary, "#9e9e9e");
}

#[test]
fn dark_theme_divider() {
    assert_color_hex(ThemeColors::dark().divider, "#2c2c2c");
}

#[test]
fn dark_theme_toolbar_inbox() {
    assert_color_hex(ThemeColors::dark().toolbar_inbox, "#1a3a6e");
}

#[test]
fn dark_theme_toolbar_done() {
    assert_color_hex(ThemeColors::dark().toolbar_done, "#0b5e35");
}

#[test]
fn dark_theme_toolbar_snoozed() {
    assert_color_hex(ThemeColors::dark().toolbar_snoozed, "#8f4100");
}

#[test]
fn dark_theme_is_dark() {
    assert!(ThemeColors::dark().is_dark);
}

#[test]
fn hex_parser_lowercase() {
    let c = hex("#ff8000");
    assert!((unit(c.r) - 1.0).abs() < 0.002);
    assert!((unit(c.g) - 0.502).abs() < 0.002);
    assert!(unit(c.b).abs() < 0.002);
}

#[test]
fn hex_parser_uppercase() {
    let c = hex("#FF8000");
    assert!((unit(c.r) - 1.0).abs() < 0.002);
    assert!((unit(c.g) - 0.502).abs() < 0.002);
    assert!(unit(c.b).abs() < 0.002);
}

#[test]
fn hex_parser_no_hash() {
    assert_color_hex(hex("4285f4"), "#4285f4");
    assert_eq!(hex("4285f4"), Color::from_rgb8(0x42, 0x85, 0xf4));
}

#[test]
fn light_theme_menu_hover() {
    assert_color_hex(ThemeColors::light().menu_hover, "#f5f5f5");
}

#[test]
fn light_theme_menu_destructive_hover() {
    assert_color_hex(ThemeColors::light().menu_destructive_hover, "#fbe9e7");
}

#[test]
fn light_theme_menu_destructive_text() {
    assert_color_hex(ThemeColors::light().menu_destructive_text, "#ef5350");
}

#[test]
fn light_theme_menu_separator() {
    assert_color_hex(ThemeColors::light().menu_separator, "#e8e8e8");
}

#[test]
fn light_theme_menu_shadow() {
    let c = ThemeColors::light().menu_shadow;
    assert_eq!((c.r, c.g, c.b), (0, 0, 0));
    assert!((c.a as f32 / 100.0 - 0.18).abs() < 0.02);
}

#[test]
fn dark_theme_menu_hover() {
    let c = ThemeColors::dark().menu_hover;
    let surface = ThemeColors::dark().surface;
    assert!(c.r > surface.r, "dark hover should be lighter than surface");
}

#[test]
fn dark_theme_menu_destructive_text_same_as_light() {
    assert_color_hex(ThemeColors::dark().menu_destructive_text, "#ef5350");
}

#[test]
fn dark_theme_menu_shadow_is_darker() {
    let dark_shadow = ThemeColors::dark().menu_shadow;
    let light_shadow = ThemeColors::light().menu_shadow;
    assert!(dark_shadow.a >= light_shadow.a, "dark theme shadow should be at least as opaque");
}

// -- Colour type --

#[test]
fn black_is_zero_rgb() {
    let c = Color::black();
    assert_eq!((c.r, c.g, c.b), (0, 0, 0));
    assert_eq!(c.a as f32 / 100.0, 1.0);
}

#[test]
fn white_is_full_rgb() {
    let c = Color::white();
    assert_eq!((unit(c.r), unit(c.g), unit(c.b)), (1.0, 1.0, 1.0));
    assert_eq!(c.a as f32 / 100.0, 1.0);
}

#[test]
fn from_rgb8_converts_correctly() {
    let c = Color::from_rgb8(66, 133, 244);
    assert!((unit(c.r) - 66.0 / 255.0).abs() < 0.002);
    assert!((unit(c.g) - 133.0 / 255.0).abs() < 0.002);
    assert!((unit(c.b) - 244.0 / 255.0).abs() < 0.002);
}

#[test]
fn to_css_opaque_hex() {
    assert_eq!(Color::from_rgb8(66, 133, 244).to_css(), "#4285f4");
}

#[test]
fn to_css_transparent_rgba() {
    let c = Color { r: 0, g: 0, b: 0, a: 18 };
    assert_eq!(c.to_css(), "rgba(0, 0, 0, 0.18)");
}

#[test]
fn display_uses_to_css() {
    assert_eq!(Color::white().to_css(), "#ffffff");
}

// -- Avatar colours --

#[test]
fn avatar_a_is_red() {
    assert_color_hex(for_letter('A'), "#e06055");
}

#[test]
fn avatar_z_is_green() {
    assert_color_hex(for_letter('Z'), "#aed581");
}

#[test]
fn avatar_case_insensitive() {
    assert_eq!(for_letter('F'), for_letter('f'));
}

#[test]
fn avatar_non_letter_returns_default() {
    assert_color_hex(for_letter('1'), "#efefef");
    assert_color_hex(for_letter('!'), "#efefef");
    assert_color_hex(for_letter(' '), "#efefef");
}

#[test]
fn avatar_array_has_27_entries() {
    assert_eq!(AVATAR_COLORS.len(), 27);
}

#[test]
fn avatar_m_is_yellow() {
    assert_color_hex(for_letter('M'), "#fdd835");
}

#[test]
fn avatar_all_26_letters_resolve() {
    for c in b'A'..=b'Z' {
        let color = for_letter(c as char);
        let default = color_from_packed(AVATAR_COLORS[26]);
        if c != b'Q' && c != b'W' {
            assert_ne!(color, default, "letter {} returned default colour", c as char);
        }
    }
}

// -- Bundle colours --

#[test]
fn social_title_is_red() {
    assert_color_hex(social().title, "#d23f31");
}

#[test]
fn social_badge_is_pink() {
    assert_color_hex(social().badge, "#faebea");
}

#[test]
fn promos_title_is_cyan() {
    assert_color_hex(promos().title, "#00acc1");
}

#[test]
fn updates_title_is_deep_orange() {
    assert_color_hex(updates().title, "#f4511e");
}

#[test]
fn finance_title_is_green() {
    assert_color_hex(finance().title, "#558b2f");
}

#[test]
fn purchases_title_is_brown() {
    assert_color_hex(purchases().title, "#6d4c41");
}

#[test]
fn travel_title_is_purple() {
    assert_color_hex(travel().title, "#8e24aa");
}

#[test]
fn forums_title_is_indigo() {
    assert_color_hex(forums().title, "#3949ab");
}

#[test]
fn low_priority_title_is_dark_grey() {
    assert_color_hex(low_priority().title, "#212121");
}

#[test]
fn all_eight_categories_have_distinct_titles() {
    let colors = [
        social().title,
        promos().title,
        updates().title,
        finance().title,
        purchases().title,
        travel().title,
        forums().title,
        low_priority().title,
    ];
    for i in 0..colors.len() {
        for j in (i + 1)..colors.len() {
            assert!(
                (unit(colors[i].r) - unit(colors[j].r)).abs() > 0.01
                    || (unit(colors[i].g) - unit(colors[j].g)).abs() > 0.01
                    || (unit(colors[i].b) - unit(colors[j].b)).abs() > 0.01,
                "categories {i} and {j} have identical title colours"
            );
        }
    }
}

#[test]
fn for_category_maps_correctly() {
    assert_color_hex(for_category(&BundleCategory::Social).title, "#d23f31");
    assert_color_hex(for_category(&BundleCategory::Custom("MyBundle".into())).title, "#212121");
}

#[test]
fn for_category_str_matches_exact_keys_with_fallback() {
    assert_eq!(for_category_str("social"), social());
    assert_eq!(for_category_str("SOCIAL"), low_priority());
    assert_eq!(for_category_str("travel"), travel());
    assert_eq!(for_category_str("whatever"), low_priority());
}

// -- System colour scheme --

#[test]
fn portal_values_map_to_schemes() {
    assert_eq!(scheme_from_portal_value(0), SystemColorScheme::NoPreference);
    assert_eq!(scheme_from_portal_value(1), SystemColorScheme::Dark);
    assert_eq!(scheme_from_portal_value(2), SystemColorScheme::Light);
    assert_eq!(scheme_from_portal_value(7), SystemColorScheme::NoPreference);
}

#[test]
fn system_theme_error_messages() {
    assert_eq!(
        SystemThemeError::DBusUnavailable("x".into()).message(),
        "D-Bus session unavailable: x"
    );
    assert_eq!(
        SystemThemeError::PortalUnsupported("y".into()).message(),
        "portal does not support color-scheme: y"
    );
}
