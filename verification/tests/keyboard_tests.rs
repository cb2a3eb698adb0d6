use inboxly_ui::keyboard::{ShortcutAction, ShortcutMap};

#[test]
fn defaults_cover_all_actions() {
    let map = ShortcutMap::defaults();
    for action in ShortcutAction::ALL {
        assert!(!map.get(action).is_empty(), "no default for {action:?}");
    }
}

#[test]
fn get_returns_correct_default() {
    let map = ShortcutMap::defaults();
    assert_eq!(map.get(ShortcutAction::Done), "e");
    assert_eq!(map.get(ShortcutAction::Pin), "=");
    assert_eq!(map.get(ShortcutAction::Snooze), "b");
    assert_eq!(map.get(ShortcutAction::Search), "/");
    assert_eq!(map.get(ShortcutAction::Compose), "c");
    assert_eq!(map.get(ShortcutAction::Refresh), "r");
    assert_eq!(map.get(ShortcutAction::Next), "j");
    assert_eq!(map.get(ShortcutAction::Previous), "k");
    assert_eq!(map.get(ShortcutAction::Open), "o");
    assert_eq!(map.get(ShortcutAction::Undo), "Ctrl+Z");
    assert_eq!(map.get(ShortcutAction::GoInbox), "g i");
    assert_eq!(map.get(ShortcutAction::GoSnoozed), "g s");
    assert_eq!(map.get(ShortcutAction::GoDone), "g d");
    assert_eq!(map.get(ShortcutAction::Reply), "Shift+R");
    assert_eq!(map.get(ShortcutAction::ReplyAll), "Shift+A");
    assert_eq!(map.get(ShortcutAction::Forward), "f");
    assert_eq!(map.get(ShortcutAction::Help), "?");
    assert_eq!(map.get(ShortcutAction::Escape), "Esc");
}

#[test]
fn set_overrides_default() {
    let mut map = ShortcutMap::defaults();
    map.set(ShortcutAction::Done, "d".to_owned());
    assert_eq!(map.get(ShortcutAction::Done), "d");
    assert!(map.is_customised(ShortcutAction::Done));
}

#[test]
fn reset_restores_default() {
    let mut map = ShortcutMap::defaults();
    map.set(ShortcutAction::Done, "d".to_owned());
    map.reset(ShortcutAction::Done);
    assert_eq!(map.get(ShortcutAction::Done), "e");
    assert!(!map.is_customised(ShortcutAction::Done));
}

#[test]
fn action_for_key_finds_binding() {
    let map = ShortcutMap::defaults();
    assert_eq!(map.action_for_key("e"), Some(ShortcutAction::Done));
    assert_eq!(map.action_for_key("Ctrl+Z"), Some(ShortcutAction::Undo));
    assert_eq!(map.action_for_key("nonexistent"), None);
}

#[test]
fn iter_display_order_covers_all_actions() {
    let map = ShortcutMap::defaults();
    let items: Vec<_> = map.iter_display_order();
    assert_eq!(items.len(), 18);
    assert_eq!(items[0].0, ShortcutAction::Done);
    assert_eq!(items[17].0, ShortcutAction::Escape);
}

#[test]
fn default_impl_matches_defaults() {
    let from_default = ShortcutMap::default();
    let from_fn = ShortcutMap::defaults();
    for action in ShortcutAction::ALL {
        assert_eq!(from_default.get(action), from_fn.get(action));
    }
}

#[test]
fn overrides_list_only_changes_in_display_order() {
    let mut map = ShortcutMap::defaults();
    assert!(map.overrides().is_empty());
    map.set(ShortcutAction::Pin, "+".to_owned());
    map.set(ShortcutAction::Done, "d".to_owned());
    let o = map.overrides();
    assert_eq!(o.len(), 2);
    assert_eq!(o[0], (ShortcutAction::Done, "d".to_string()));
    assert_eq!(o[1], (ShortcutAction::Pin, "+".to_string()));
}

#[test]
fn from_overrides_merges_over_defaults_last_wins() {
    let map = ShortcutMap::from_overrides(vec![
        (ShortcutAction::Done, "x".to_string()),
        (ShortcutAction::Pin, "+".to_string()),
        (ShortcutAction::Done, "d".to_string()),
    ]);
    assert_eq!(map.get(ShortcutAction::Done), "d");
    assert_eq!(map.get(ShortcutAction::Pin), "+");
    assert_eq!(map.get(ShortcutAction::Compose), "c");
    assert!(map.is_customised(ShortcutAction::Pin));
    assert!(!map.is_customised(ShortcutAction::Compose));
}

#[test]
fn overrides_round_trip_through_from_overrides() {
    let mut map = ShortcutMap::defaults();
    map.set(ShortcutAction::Help, "h".to_owned());
    map.set(ShortcutAction::Escape, "q".to_owned());
    let back = ShortcutMap::from_overrides(map.overrides());
    for action in ShortcutAction::ALL {
        assert_eq!(back.get(action), map.get(action));
        assert_eq!(back.is_customised(action), map.is_customised(action));
    }
}

#[test]
fn action_for_key_prefers_display_order_on_conflict() {
    let mut map = ShortcutMap::defaults();
    map.set(ShortcutAction::Escape, "e".to_owned());
    assert_eq!(map.action_for_key("e"), Some(ShortcutAction::Done));
}

#[test]
fn labels_and_defaults_for_actions() {
    assert_eq!(ShortcutAction::Done.label(), "Mark Done");
    assert_eq!(ShortcutMap::default_for(ShortcutAction::GoInbox), "g i");
    let pairs = ShortcutMap::default_pairs();
    assert_eq!(pairs.len(), 18);
    assert_eq!(pairs[9], (ShortcutAction::Undo, "Ctrl+Z"));
}

#[test]
fn overrides_json_only_stores_changes() {
    let mut map = ShortcutMap::defaults();
    let json = map.to_overrides_json();
    assert_eq!(json, "{}");

    map.set(ShortcutAction::Done, "d".to_owned());
    let json = map.to_overrides_json();
    assert!(json.contains("done"));
    assert!(json.contains("\"d\""));
    // Should NOT contain non-overridden keys.
    assert!(!json.contains("pin"));
}

#[test]
fn from_overrides_json_merges_over_defaults() {
    let json = r#"{"done":"d","pin":"+"}"#;
    let map = ShortcutMap::from_overrides_json(json);
    assert_eq!(map.get(ShortcutAction::Done), "d");
    assert_eq!(map.get(ShortcutAction::Pin), "+");
    // Non-overridden should still have defaults.
    assert_eq!(map.get(ShortcutAction::Compose), "c");
}

#[test]
fn from_overrides_json_handles_invalid_json() {
    let map = ShortcutMap::from_overrides_json("not json at all");
    // Should silently fall back to defaults.
    assert_eq!(map.get(ShortcutAction::Done), "e");
}

#[test]
fn from_overrides_json_handles_empty_string() {
    let map = ShortcutMap::from_overrides_json("");
    assert_eq!(map.get(ShortcutAction::Done), "e");
}

#[test]
fn overrides_json_round_trips_through_from_overrides_json() {
    let mut map = ShortcutMap::defaults();
    map.set(ShortcutAction::ReplyAll, "Shift+Q".to_owned());
    map.set(ShortcutAction::GoInbox, "g g".to_owned());
    let json = map.to_overrides_json();
    assert!(json.contains("\"reply_all\""));
    assert!(json.contains("\"go_inbox\""));
    let back = ShortcutMap::from_overrides_json(&json);
    assert_eq!(back.get(ShortcutAction::ReplyAll), "Shift+Q");
    assert_eq!(back.get(ShortcutAction::GoInbox), "g g");
    assert!(back.is_customised(ShortcutAction::ReplyAll));
    assert!(!back.is_customised(ShortcutAction::Done));
}

#[test]
fn from_overrides_json_with_unknown_action_gives_defaults() {
    let map = ShortcutMap::from_overrides_json(r#"{"done":"d","fly":"x"}"#);
    assert_eq!(map.get(ShortcutAction::Done), "e");
    assert!(!map.is_customised(ShortcutAction::Done));
}

#[test]
fn serde_names_are_snake_case() {
    assert_eq!(ShortcutAction::ReplyAll.serde_name(), "reply_all");
    assert_eq!(ShortcutAction::from_serde_name("reply_all"), Some(ShortcutAction::ReplyAll));
    assert_eq!(ShortcutAction::from_serde_name("ReplyAll"), None);
    for action in ShortcutAction::ALL {
        assert_eq!(ShortcutAction::from_serde_name(action.serde_name()), Some(action));
    }
}

#[test]
fn every_default_key_finds_its_own_action() {
    let map = ShortcutMap::defaults();
    for action in ShortcutAction::ALL {
        let key = ShortcutMap::default_for(action);
        assert!(!key.is_empty());
        assert_eq!(map.action_for_key(key), Some(action));
    }
}
