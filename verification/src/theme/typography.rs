//! Typography constants from the BigTop APK.
//!
//! Sizes are in whole logical pixels (sp from the APK = 1:1 on desktop).

use vstd::prelude::*;

verus! {

/// Font weight for CSS rendering.
#[derive(Debug, Clone, Copy, PartialEq, Eq, Structural)]
pub enum Weight {
    /// Normal weight (CSS 400).
    Normal,
    /// Medium weight (CSS 500).
    Medium,
    /// Bold weight (CSS 700).
    Bold,
}

impl Weight {
    /// CSS `font-weight` numeric value.
    pub fn css_value(&self) -> (r: u16)
        ensures
            r == match *self {
                Weight::Normal => 400u16,
                Weight::Medium => 500u16,
                Weight::Bold => 700u16,
            },
    {
        match self {
            Weight::Normal => 400,
            Weight::Medium => 500,
            Weight::Bold => 700,
        }
    }
}

/// Toolbar title text.
pub const TOOLBAR_TITLE_SIZE: u32 = 20;
/// Toolbar title weight.
pub const TOOLBAR_TITLE_WEIGHT: Weight = Weight::Normal;

/// Email title / sender name in list view.
pub const EMAIL_TITLE_SIZE: u32 = 16;
/// Email title weight (read messages).
pub const EMAIL_TITLE_WEIGHT: Weight = Weight::Normal;
/// Bold variant for unread emails.
pub const EMAIL_TITLE_WEIGHT_UNREAD: Weight = Weight::Bold;

/// Author name in conversation view.
pub const AUTHOR_NAME_SIZE: u32 = 14;
/// Author name weight.
pub const AUTHOR_NAME_WEIGHT: Weight = Weight::Normal;

/// Snippet/preview text in list view.
pub const SNIPPET_SIZE: u32 = 14;
/// Snippet weight.
pub const SNIPPET_WEIGHT: Weight = Weight::Normal;

/// Timestamp text.
pub const TIMESTAMP_SIZE: u32 = 12;
/// Timestamp weight.
pub const TIMESTAMP_WEIGHT: Weight = Weight::Normal;

/// Section header text (Today, This Month, etc.).
pub const SECTION_HEADER_SIZE: u32 = 14;
/// Section header weight.
pub const SECTION_HEADER_WEIGHT: Weight = Weight::Bold;

/// Unread count badge text.
pub const BADGE_SIZE: u32 = 16;
/// Badge weight.
pub const BADGE_WEIGHT: Weight = Weight::Bold;

/// Nav drawer item text.
pub const NAV_ITEM_SIZE: u32 = 14;
/// Nav drawer item weight.
pub const NAV_ITEM_WEIGHT: Weight = Weight::Medium;

/// Compose view subject line.
pub const COMPOSE_SUBJECT_SIZE: u32 = 18;
/// Compose subject weight.
pub const COMPOSE_SUBJECT_WEIGHT: Weight = Weight::Bold;

/// Compose view body text.
pub const COMPOSE_BODY_SIZE: u32 = 16;
/// Compose body weight.
pub const COMPOSE_BODY_WEIGHT: Weight = Weight::Normal;

} // verus!
