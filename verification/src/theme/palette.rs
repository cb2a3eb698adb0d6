//! Colours that are constant across light and dark themes: the avatar
//! letter tiles and the bundle category title/badge pairs.

use vstd::prelude::*;

use super::color::Color;
use crate::text::str_eq;

verus! {

/// Avatar letter tile colours for A-Z plus a default (index 26), each
/// written as `0xRRGGBB`.
pub const AVATAR_COLORS: [u32; 27] = [
    0xe06055, // A
    0xed6192, // B
    0xba68c8, // C
    0x9575cd, // D
    0x7986cb, // E
    0x5e97f6, // F
    0x4fc3f7, // G
    0x58d0e1, // H
    0x4fb6ac, // I
    0x57bb8a, // J
    0x9ccc65, // K
    0xd4e157, // L
    0xfdd835, // M
    0xf6bf32, // N
    0xf5a631, // O
    0xf18864, // P
    0xc2c2c2, // Q
    0x90a4ae, // R
    0xa1887f, // S
    0xa3a3a3, // T
    0xafb6e0, // U
    0xb39ddb, // V
    0xc2c2c2, // W
    0x80deea, // X
    0xbcaaa4, // Y
    0xaed581, // Z
    0xefefef, // default (index 26)
];

/// The opaque colour written as `0xRRGGBB`.
pub open spec fn packed_color(v: u32) -> Color {
    Color {
        r: ((v as int / 65536) % 256) as u8,
        g: ((v as int / 256) % 256) as u8,
        b: (v as int % 256) as u8,
        a: 100,
    }
}

/// The opaque colour written as `0xRRGGBB`.
pub fn color_from_packed(v: u32) -> (c: Color)
    ensures
        c == packed_color(v),
{
    Color { r: ((v / 65536) % 256) as u8, g: ((v / 256) % 256) as u8, b: (v % 256) as u8, a: 100 }
}

/// Palette position of a letter (A-Z either case), 26 for anything else.
pub open spec fn letter_index(c: char) -> int {
    if 'A' <= c && c <= 'Z' {
        c as int - 65
    } else if 'a' <= c && c <= 'z' {
        c as int - 97
    } else {
        26
    }
}

/// Get the avatar colour for a character: A-Z (case-insensitive) map to
/// their tiles, anything else to the default tile.
pub fn for_letter(c: char) -> (r: Color)
    ensures
        r == packed_color(AVATAR_COLORS@[letter_index(c)]),
{
    let index: usize = if 'A' <= c && c <= 'Z' {
        (c as u32 - 65) as usize
    } else if 'a' <= c && c <= 'z' {
        (c as u32 - 97) as usize
    } else {
        26
    };
    color_from_packed(AVATAR_COLORS[index])
}

/// Bundle category title and badge colour pair.
#[derive(Debug, Clone, Copy, PartialEq, Eq, Structural)]
pub struct BundleCategoryColor {
    /// Title text colour for the bundle name.
    pub title: Color,
    /// Pastel background for the unread badge.
    pub badge: Color,
}

/// Built-in bundle categories.
#[derive(Debug, Clone, PartialEq, Eq)]
pub enum BundleCategory {
    Social,
    Promos,
    Updates,
    Finance,
    Purchases,
    Travel,
    Forums,
    LowPriority,
    Saved,
    Custom(String),
}

pub open spec fn pair(title: u32, badge: u32) -> BundleCategoryColor {
    BundleCategoryColor { title: packed_color(title), badge: packed_color(badge) }
}

fn make_pair(title: u32, badge: u32) -> (p: BundleCategoryColor)
    ensures
        p == pair(title, badge),
{
    BundleCategoryColor { title: color_from_packed(title), badge: color_from_packed(badge) }
}

/// Social bundle colours: red title, pink badge.
pub fn social() -> (p: BundleCategoryColor)
    ensures
        p == pair(0xd23f31, 0xfaebea),
{
    make_pair(0xd23f31, 0xfaebea)
}

/// Promos bundle colours: cyan title, light cyan badge.
pub fn promos() -> (p: BundleCategoryColor)
    ensures
        p == pair(0x00acc1, 0xe5f6f9),
{
    make_pair(0x00acc1, 0xe5f6f9)
}

/// Updates bundle colours: deep orange title, light orange badge.
pub fn updates() -> (p: BundleCategoryColor)
    ensures
        p == pair(0xf4511e, 0xfeede8),
{
    make_pair(0xf4511e, 0xfeede8)
}

/// Finance bundle colours: green title, light green badge.
pub fn finance() -> (p: BundleCategoryColor)
    ensures
        p == pair(0x558b2f, 0xeef3ea),
{
    make_pair(0x558b2f, 0xeef3ea)
}

/// Purchases bundle colours: brown title, light brown badge.
pub fn purchases() -> (p: BundleCategoryColor)
    ensures
        p == pair(0x6d4c41, 0xf0edec),
{
    make_pair(0x6d4c41, 0xf0edec)
}

/// Travel bundle colours: purple title, light purple badge.
pub fn travel() -> (p: BundleCategoryColor)
    ensures
        p == pair(0x8e24aa, 0xf3e9f6),
{
    make_pair(0x8e24aa, 0xf3e9f6)
}

/// Forums bundle colours: indigo title, light indigo badge.
pub fn forums() -> (p: BundleCategoryColor)
    ensures
        p == pair(0x3949ab, 0xebecf6),
{
    make_pair(0x3949ab, 0xebecf6)
}

/// Low Priority bundle colours: dark grey title, light grey badge.
pub fn low_priority() -> (p: BundleCategoryColor)
    ensures
        p == pair(0x212121, 0xe5e5e5),
{
    make_pair(0x212121, 0xe5e5e5)
}

/// Colours of a category; `Saved` and custom categories use Low Priority's.
pub open spec fn category_pair(c: BundleCategory) -> BundleCategoryColor {
    match c {
        BundleCategory::Social => pair(0xd23f31, 0xfaebea),
        BundleCategory::Promos => pair(0x00acc1, 0xe5f6f9),
        BundleCategory::Updates => pair(0xf4511e, 0xfeede8),
        BundleCategory::Finance => pair(0x558b2f, 0xeef3ea),
        BundleCategory::Purchases => pair(0x6d4c41, 0xf0edec),
        BundleCategory::Travel => pair(0x8e24aa, 0xf3e9f6),
        BundleCategory::Forums => pair(0x3949ab, 0xebecf6),
        _ => pair(0x212121, 0xe5e5e5),
    }
}

/// Look up bundle category colours by category.
pub fn for_category(category: &BundleCategory) -> (p: BundleCategoryColor)
    ensures
        p == category_pair(*category),
{
    match category {
        BundleCategory::Social => social(),
        BundleCategory::Promos => promos(),
        BundleCategory::Updates => updates(),
        BundleCategory::Finance => finance(),
        BundleCategory::Purchases => purchases(),
        BundleCategory::Travel => travel(),
        BundleCategory::Forums => forums(),
        BundleCategory::LowPriority => low_priority(),
        BundleCategory::Saved | BundleCategory::Custom(_) => low_priority(),
    }
}

/// The category a lowercase key from the bundles table names (unknown keys
/// fall back to Low Priority).
pub open spec fn category_of_key(key: Seq<char>) -> BundleCategory {
    if key == "social"@ {
        BundleCategory::Social
    } else if key == "promos"@ {
        BundleCategory::Promos
    } else if key == "updates"@ {
        BundleCategory::Updates
    } else if key == "finance"@ {
        BundleCategory::Finance
    } else if key == "purchases"@ {
        BundleCategory::Purchases
    } else if key == "travel"@ {
        BundleCategory::Travel
    } else if key == "forums"@ {
        BundleCategory::Forums
    } else {
        BundleCategory::LowPriority
    }
}

/// Look up bundle category colours by the category key string stored in the
/// bundles table; unknown keys get Low Priority's colours.
pub fn for_category_str(category: &str) -> (p: BundleCategoryColor)
    ensures
        p == category_pair(category_of_key(category@)),
{
    if str_eq(category, "social") {
        social()
    } else if str_eq(category, "promos") {
        promos()
    } else if str_eq(category, "updates") {
        updates()
    } else if str_eq(category, "finance") {
        finance()
    } else if str_eq(category, "purchases") {
        purchases()
    } else if str_eq(category, "travel") {
        travel()
    } else if str_eq(category, "forums") {
        forums()
    } else {
        low_priority()
    }
}

} // verus!
