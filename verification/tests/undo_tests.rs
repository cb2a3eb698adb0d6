use std::time::{Duration, Instant};

use inboxly_ui::undo::{UNDO_TIMEOUT_SECS, UndoAction, UndoState, undo_timeout};

#[test]
fn new_state_is_inactive() {
    let state = UndoState::new();
    assert!(!state.is_active());
    assert!(state.description().is_none());
}

#[test]
fn push_makes_active() {
    let mut state = UndoState::new();
    state.push(UndoAction::MarkDone { thread_id: "t1".into() });
    assert!(state.is_active());
    assert!(state.description().is_some());
}

#[test]
fn take_returns_action() {
    let mut state = UndoState::new();
    state.push(UndoAction::MarkDone { thread_id: "t1".into() });
    let action = state.take();
    assert!(action.is_some());
    assert!(!state.is_active());
}

#[test]
fn take_after_clear_returns_none() {
    let mut state = UndoState::new();
    state.push(UndoAction::MarkDone { thread_id: "t1".into() });
    state.clear();
    assert!(state.take().is_none());
}

#[test]
fn description_for_mark_done() {
    let action = UndoAction::MarkDone { thread_id: "t1".into() };
    assert_eq!(action.description(), "Conversation marked done");
}

#[test]
fn description_for_sweep() {
    let action = UndoAction::Sweep { thread_ids: vec!["t1".into(), "t2".into(), "t3".into()] };
    assert_eq!(action.description(), "3 conversations marked done");
}

#[test]
fn description_for_single_sweep() {
    let action = UndoAction::Sweep { thread_ids: vec!["t1".into()] };
    assert_eq!(action.description(), "1 conversation marked done");
}

#[test]
fn description_for_pin() {
    let pin = UndoAction::TogglePin { thread_id: "t1".into(), was_pinned: false };
    assert_eq!(pin.description(), "Pinned");

    let unpin = UndoAction::TogglePin { thread_id: "t1".into(), was_pinned: true };
    assert_eq!(unpin.description(), "Unpinned");
}

#[test]
fn push_replaces_existing() {
    let mut state = UndoState::new();
    state.push(UndoAction::MarkDone { thread_id: "t1".into() });
    state.push(UndoAction::MarkDone { thread_id: "t2".into() });
    let action = state.take().expect("should have action");
    if let UndoAction::MarkDone { thread_id } = action {
        assert_eq!(thread_id, "t2");
    } else {
        panic!("expected MarkDone");
    }
}

#[test]
fn expired_action_not_returned() {
    let mut state = UndoState::new();
    // Start the undo window in the past to simulate expiry.
    let started = Instant::now() - undo_timeout() - Duration::from_secs(1);
    state.push_at(UndoAction::MarkDone { thread_id: "t1".into() }, started);
    assert!(!state.is_active());
    assert!(state.take().is_none());
}

#[test]
fn generation_increments_on_push() {
    let mut state = UndoState::new();
    assert_eq!(state.generation(), 0);
    state.push(UndoAction::MarkDone { thread_id: "t1".into() });
    let gen1 = state.generation();
    assert_eq!(gen1, 1);
    state.push(UndoAction::MarkDone { thread_id: "t2".into() });
    assert!(state.generation() > gen1);
}

#[test]
fn generation_preserved_on_take_and_clear() {
    let mut state = UndoState::new();
    state.push(UndoAction::MarkDone { thread_id: "t1".into() });
    let gen_before = state.generation();
    let _ = state.take();
    assert_eq!(state.generation(), gen_before, "take must not change generation");
    state.push(UndoAction::MarkDone { thread_id: "t2".into() });
    assert!(state.generation() > gen_before);
    state.clear();
    assert_eq!(state.generation(), gen_before + 1, "clear must not change generation");
}

#[test]
fn expired_window_reports_expiry_and_no_time_left() {
    let mut state = UndoState::new();
    let started = Instant::now() - Duration::from_secs(UNDO_TIMEOUT_SECS + 5);
    state.push_at(UndoAction::MarkDone { thread_id: "t1".into() }, started);
    assert!(state.is_expired());
    assert_eq!(state.time_remaining(), Duration::ZERO);
    assert!(state.description().is_none());
}

#[test]
fn fresh_window_has_time_left_within_timeout() {
    let mut state = UndoState::new();
    assert_eq!(state.time_remaining(), Duration::ZERO);
    state.push(UndoAction::MarkDone { thread_id: "t1".into() });
    let left = state.time_remaining();
    assert!(left > Duration::ZERO);
    assert!(left <= Duration::from_secs(UNDO_TIMEOUT_SECS));
    assert!(!state.is_expired());
}

#[test]
fn take_checked_drops_expired_action_and_keeps_generation() {
    let mut state = UndoState::new();
    state.push(UndoAction::MarkDone { thread_id: "t1".into() });
    let g = state.generation();
    assert!(state.take_checked(true).is_none());
    assert!(!state.is_active());
    assert_eq!(state.generation(), g);
    state.push(UndoAction::MarkDone { thread_id: "t2".into() });
    assert!(matches!(state.take_checked(false), Some(UndoAction::MarkDone { .. })));
}

#[test]
fn many_sweep_description_uses_count() {
    let ids: Vec<String> = (0..12).map(|i| format!("t{i}")).collect();
    assert_eq!(UndoAction::Sweep { thread_ids: ids }.description(), "12 conversations marked done");
}

#[test]
fn default_undo_state_is_inactive() {
    let state = UndoState::default();
    assert!(!state.is_active());
    assert_eq!(state.generation(), 0);
}

#[test]
fn expiry_and_remaining_follow_the_elapsed_time() {
    let mut state = UndoState::new();
    assert!(!state.expired_after(&Duration::from_secs(100)));
    assert_eq!(state.remaining_after(&Duration::from_secs(1)), Duration::ZERO);
    state.push(UndoAction::MarkDone { thread_id: "t1".into() });
    assert!(!state.expired_after(&Duration::from_millis(6_999)));
    assert!(state.expired_after(&Duration::from_secs(7)));
    assert_eq!(state.remaining_after(&Duration::from_secs(2)), Duration::from_secs(5));
    assert_eq!(state.remaining_after(&Duration::from_secs(9)), Duration::ZERO);
}

#[test]
fn remaining_time_shrinks_and_hits_zero_at_expiry() {
    let mut state = UndoState::new();
    state.push(UndoAction::MarkDone { thread_id: "t2".into() });
    let mut previous = state.remaining_after(&Duration::ZERO);
    assert_eq!(previous, Duration::from_secs(7));
    for millis in [500u64, 1_000, 3_250, 6_999, 7_000, 12_000] {
        let elapsed = Duration::from_millis(millis);
        let left = state.remaining_after(&elapsed);
        assert!(left <= previous);
        assert_eq!(state.expired_after(&elapsed), left == Duration::ZERO);
        previous = left;
    }
}
