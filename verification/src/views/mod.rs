//! State types of the standalone views and their menus.

pub mod compose_view;
pub mod inbox_view;
pub mod settings_bundles;
