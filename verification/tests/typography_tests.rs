use inboxly_ui::theme::typography::{
    COMPOSE_SUBJECT_SIZE, COMPOSE_SUBJECT_WEIGHT, EMAIL_TITLE_SIZE, EMAIL_TITLE_WEIGHT,
    EMAIL_TITLE_WEIGHT_UNREAD, NAV_ITEM_WEIGHT, SECTION_HEADER_WEIGHT, SNIPPET_SIZE,
    TIMESTAMP_SIZE, TOOLBAR_TITLE_SIZE, Weight,
};

#[test]
fn toolbar_title_is_20sp() {
    assert_eq!(TOOLBAR_TITLE_SIZE as f32, 20.0);
}

#[test]
fn email_title_is_16sp() {
    assert_eq!(EMAIL_TITLE_SIZE as f32, 16.0);
}

#[test]
fn snippet_is_14sp() {
    assert_eq!(SNIPPET_SIZE as f32, 14.0);
}

#[test]
fn timestamp_is_12sp() {
    assert_eq!(TIMESTAMP_SIZE as f32, 12.0);
}

#[test]
fn section_header_is_bold() {
    assert!(matches!(SECTION_HEADER_WEIGHT, Weight::Bold));
}

#[test]
fn unread_title_is_bold() {
    assert!(matches!(EMAIL_TITLE_WEIGHT_UNREAD, Weight::Bold));
}

#[test]
fn read_title_is_normal() {
    assert!(matches!(EMAIL_TITLE_WEIGHT, Weight::Normal));
}

#[test]
fn nav_item_is_medium_weight() {
    assert!(matches!(NAV_ITEM_WEIGHT, Weight::Medium));
}

#[test]
fn compose_subject_is_18sp_bold() {
    assert_eq!(COMPOSE_SUBJECT_SIZE as f32, 18.0);
    assert!(matches!(COMPOSE_SUBJECT_WEIGHT, Weight::Bold));
}

#[test]
fn weight_css_values() {
    assert_eq!(Weight::Normal.css_value(), 400);
    assert_eq!(Weight::Medium.css_value(), 500);
    assert_eq!(Weight::Bold.css_value(), 700);
}
