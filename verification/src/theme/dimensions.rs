//! Layout dimension constants from the BigTop APK, in whole logical pixels
//! (1dp = 1 logical pixel at 1x scaling).

use vstd::prelude::*;

verus! {

// -- Toolbar --
/// Toolbar height in logical pixels.
pub const TOOLBAR_HEIGHT: u32 = 56;
/// Toolbar elevation (shadow depth).
pub const TOOLBAR_ELEVATION: u32 = 2;

// -- Navigation Drawer --
/// Nav drawer width when open.
pub const NAV_DRAWER_WIDTH: u32 = 264;
/// Nav drawer item height.
pub const NAV_DRAWER_ITEM_HEIGHT: u32 = 48;

// -- Spacing --
/// Default margin and padding.
pub const DEFAULT_PADDING: u32 = 16;

// -- Avatars --
/// Avatar circle diameter.
pub const AVATAR_DIAMETER: u32 = 40;
/// Avatar column width (avatar + surrounding space in list rows).
pub const AVATAR_COLUMN_WIDTH: u32 = 72;

// -- List Items --
/// Card elevation for list item cards.
pub const LIST_ITEM_ELEVATION: u32 = 2;
/// Corner radius for list item cards (flat in BigTop).
pub const LIST_ITEM_CORNER_RADIUS: u32 = 0;

// -- Section Headers --
/// Section header height (Pinned, Today, This Month, etc.).
pub const SECTION_HEADER_HEIGHT: u32 = 48;

// -- FAB (Floating Action Button) --
/// Main FAB diameter.
pub const FAB_DIAMETER: u32 = 56;
/// Mini FAB diameter (speed dial children).
pub const MINI_FAB_DIAMETER: u32 = 40;
/// FAB margin from screen edges.
pub const FAB_EDGE_MARGIN: u32 = 13;

// -- Snooze Picker --
/// Snooze picker grid total width.
pub const SNOOZE_GRID_WIDTH: u32 = 288;
/// Snooze option cell width.
pub const SNOOZE_CELL_WIDTH: u32 = 142;
/// Snooze option cell height.
pub const SNOOZE_CELL_HEIGHT: u32 = 122;

// -- Compose --
/// Maximum width of the compose view.
pub const COMPOSE_MAX_WIDTH: u32 = 920;

// -- Dividers --
/// Divider line thickness (1 physical pixel).
pub const DIVIDER_THICKNESS: u32 = 1;

// -- Popup Menu --
/// Popup menu card width (overflow/context menus).
pub const POPUP_MENU_WIDTH: u32 = 260;
/// Popup menu card corner radius.
pub const POPUP_MENU_CORNER_RADIUS: u32 = 10;
/// Popup menu item horizontal padding.
pub const POPUP_MENU_ITEM_PADDING_H: u32 = 18;
/// Popup menu item vertical padding.
pub const POPUP_MENU_ITEM_PADDING_V: u32 = 12;
/// Popup menu icon column width (left-aligned).
pub const POPUP_MENU_ICON_WIDTH: u32 = 22;
/// Popup menu item font size.
pub const POPUP_MENU_ITEM_FONT_SIZE: u32 = 15;
/// Popup menu separator vertical margin.
pub const POPUP_MENU_SEPARATOR_MARGIN: u32 = 2;
/// Popup menu shadow blur radius.
pub const POPUP_MENU_SHADOW_BLUR: u32 = 24;
/// Popup menu shadow vertical offset.
pub const POPUP_MENU_SHADOW_OFFSET_Y: u32 = 6;

// -- Account Switcher --
/// Avatar diameter in the account switcher header (larger than standard 40dp).
pub const ACCOUNT_SWITCHER_AVATAR: u32 = 44;
/// Height of each account row in the expanded account list.
pub const ACCOUNT_ROW_HEIGHT: u32 = 56;

} // verus!
