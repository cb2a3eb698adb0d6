//! Inboxly desktop UI state: the framework-independent state machine,
//! keyboard shortcuts, undo, feed grouping, search parsing, theming tokens
//! and the small text helpers they share.

pub mod text;
pub mod clock;
pub mod keyboard;
pub mod shortcut_json;
pub mod undo;
pub mod search;
pub mod theme;
pub mod settings;
pub mod nav;
pub mod feed;
pub mod sanitize;
pub mod compose;
pub mod config;
pub mod state;
pub mod json;
pub mod lists;
pub mod app;
pub mod snooze;
pub mod startup;
pub mod loaded_thread;
pub mod account_id;
pub mod recipients;
pub mod reply;
pub mod views;
