//! Navigation drawer types.

use vstd::prelude::*;

use crate::text::owned;
use crate::theme::ActiveView;

verus! {

/// Secondary navigation destinations (folders, not primary views).
#[derive(Debug, Clone, Copy, PartialEq, Eq, Hash, Structural)]
pub enum NavSection {
    Drafts,
    Sent,
    Reminders,
    Trash,
    Spam,
}

/// Label of a secondary nav item.
pub open spec fn section_label(s: NavSection) -> Seq<char> {
    match s {
        NavSection::Drafts => "Drafts"@,
        NavSection::Sent => "Sent"@,
        NavSection::Reminders => "Reminders"@,
        NavSection::Trash => "Trash"@,
        NavSection::Spam => "Spam"@,
    }
}

impl NavSection {
    /// Human-readable label for this section.
    pub fn label(&self) -> (r: &'static str)
        ensures
            r@ == section_label(*self),
    {
        match self {
            NavSection::Drafts => "Drafts",
            NavSection::Sent => "Sent",
            NavSection::Reminders => "Reminders",
            NavSection::Trash => "Trash",
            NavSection::Spam => "Spam",
        }
    }

    /// All secondary nav items in display order.
    pub fn all() -> (r: Vec<NavSection>)
        ensures
            r@ == seq![
                NavSection::Drafts,
                NavSection::Sent,
                NavSection::Reminders,
                NavSection::Trash,
                NavSection::Spam,
            ],
    {
        let mut v: Vec<NavSection> = Vec::new();
        v.push(NavSection::Drafts);
        v.push(NavSection::Sent);
        v.push(NavSection::Reminders);
        v.push(NavSection::Trash);
        v.push(NavSection::Spam);
        assert(v@ =~= seq![
            NavSection::Drafts,
            NavSection::Sent,
            NavSection::Reminders,
            NavSection::Trash,
            NavSection::Spam,
        ]);
        v
    }
}

/// A bundle category entry for the nav drawer.
#[derive(Debug, Clone, PartialEq, Eq)]
pub struct NavBundleCategory {
    pub name: String,
}

/// Names of the default bundle categories, in drawer order.
pub open spec fn default_category_names() -> Seq<Seq<char>> {
    seq![
        "Social"@,
        "Promos"@,
        "Updates"@,
        "Finance"@,
        "Purchases"@,
        "Travel"@,
        "Forums"@,
        "Low Priority"@,
    ]
}

/// Default bundle categories shown in the nav drawer.
pub fn default_bundle_categories() -> (r: Vec<NavBundleCategory>)
    ensures
        r@.map_values(|c: NavBundleCategory| c.name@) == default_category_names(),
{
    let mut v: Vec<NavBundleCategory> = Vec::new();
    v.push(NavBundleCategory { name: owned("Social") });
    v.push(NavBundleCategory { name: owned("Promos") });
    v.push(NavBundleCategory { name: owned("Updates") });
    v.push(NavBundleCategory { name: owned("Finance") });
    v.push(NavBundleCategory { name: owned("Purchases") });
    v.push(NavBundleCategory { name: owned("Travel") });
    v.push(NavBundleCategory { name: owned("Forums") });
    v.push(NavBundleCategory { name: owned("Low Priority") });
    assert(v@.map_values(|c: NavBundleCategory| c.name@) =~= default_category_names());
    v
}

/// Unified navigation target -- any clickable item in the nav drawer.
#[derive(Debug, Clone, PartialEq, Eq)]
pub enum NavTarget {
    /// Primary views (Inbox, Snoozed, Done) -- changes toolbar colour.
    View(ActiveView),
    /// Secondary nav (Drafts, Sent, etc.) -- loads folder content.
    Section(NavSection),
    /// Bundle category filter -- shows emails in that bundle.
    BundleCategory(String),
}

} // verus!
