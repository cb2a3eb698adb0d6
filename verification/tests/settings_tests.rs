use inboxly_ui::settings::{SettingsTab, format_size};

#[test]
fn settings_tab_default_is_general() {
    assert_eq!(SettingsTab::default(), SettingsTab::General);
}

#[test]
fn settings_tab_labels() {
    assert_eq!(SettingsTab::General.label(), "General");
    assert_eq!(SettingsTab::Accounts.label(), "Accounts");
    assert_eq!(SettingsTab::Bundles.label(), "Bundles");
    assert_eq!(SettingsTab::Notifications.label(), "Notifications");
    assert_eq!(SettingsTab::KeyboardShortcuts.label(), "Keyboard Shortcuts");
    assert_eq!(SettingsTab::DataStorage.label(), "Data & Storage");
}

#[test]
fn settings_tab_all_returns_six_tabs() {
    let all = SettingsTab::all();
    assert_eq!(all.len(), 6);
    assert_eq!(all[0], SettingsTab::General);
    assert_eq!(all[5], SettingsTab::DataStorage);
}

#[test]
fn format_size_helper() {
    assert_eq!(format_size(0), "0 B");
    assert_eq!(format_size(512), "512 B");
    assert_eq!(format_size(1024), "1.0 KB");
    assert_eq!(format_size(1536), "1.5 KB");
    assert_eq!(format_size(1024 * 1024), "1.0 MB");
    assert_eq!(format_size(1024 * 1024 * 1024), "1.0 GB");
    assert_eq!(format_size(2 * 1024 * 1024 * 1024), "2.0 GB");
}

#[test]
fn format_size_matches_float_formatting() {
    for bytes in [1023u64, 1025, 1126, 1075, 10 * 1024 + 51, 1024 * 1024 - 1, 5_000_000, 123_456_789_012, u64::MAX] {
        let expected = if bytes >= 1024 * 1024 * 1024 {
            format!("{:.1} GB", bytes as f64 / (1024.0 * 1024.0 * 1024.0))
        } else if bytes >= 1024 * 1024 {
            format!("{:.1} MB", bytes as f64 / (1024.0 * 1024.0))
        } else if bytes >= 1024 {
            format!("{:.1} KB", bytes as f64 / 1024.0)
        } else {
            format!("{bytes} B")
        };
        assert_eq!(format_size(bytes), expected, "bytes = {bytes}");
    }
}
