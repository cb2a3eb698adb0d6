//! Keyboard shortcut definitions.
//!
//! A runtime-configurable shortcut map keyed by [`ShortcutAction`]. Defaults
//! follow the Google Inbox conventions; users override single bindings and
//! only those deltas are persisted.

use vstd::prelude::*;

use crate::text::{chars_eq, chars_of, owned};

verus! {

/// Every action that can be triggered by a keyboard shortcut.
#[derive(Debug, Clone, Copy, PartialEq, Eq, Hash, Structural)]
pub enum ShortcutAction {
    /// Archive / Mark Done.
    Done,
    /// Pin toggle.
    Pin,
    /// Snooze.
    Snooze,
    /// Search.
    Search,
    /// Compose new email.
    Compose,
    /// Refresh.
    Refresh,
    /// Select next.
    Next,
    /// Select previous.
    Previous,
    /// Open thread.
    Open,
    /// Undo.
    Undo,
    /// Go to inbox.
    GoInbox,
    /// Go to snoozed.
    GoSnoozed,
    /// Go to done.
    GoDone,
    /// Reply to a thread.
    Reply,
    /// Reply all.
    ReplyAll,
    /// Forward a thread.
    Forward,
    /// Show keyboard shortcuts help.
    Help,
    /// Escape / dismiss.
    Escape,
}

/// Number of shortcut actions.
pub const ACTION_COUNT: usize = 18;

/// Position of an action in display order.
pub open spec fn action_index(a: ShortcutAction) -> int {
    match a {
        ShortcutAction::Done => 0,
        ShortcutAction::Pin => 1,
        ShortcutAction::Snooze => 2,
        ShortcutAction::Search => 3,
        ShortcutAction::Compose => 4,
        ShortcutAction::Refresh => 5,
        ShortcutAction::Next => 6,
        ShortcutAction::Previous => 7,
        ShortcutAction::Open => 8,
        ShortcutAction::Undo => 9,
        ShortcutAction::GoInbox => 10,
        ShortcutAction::GoSnoozed => 11,
        ShortcutAction::GoDone => 12,
        ShortcutAction::Reply => 13,
        ShortcutAction::ReplyAll => 14,
        ShortcutAction::Forward => 15,
        ShortcutAction::Help => 16,
        ShortcutAction::Escape => 17,
    }
}

/// The action at a display position (inverse of [`action_index`]).
pub open spec fn action_at(i: int) -> ShortcutAction {
    if i == 0 {
        ShortcutAction::Done
    } else if i == 1 {
        ShortcutAction::Pin
    } else if i == 2 {
        ShortcutAction::Snooze
    } else if i == 3 {
        ShortcutAction::Search
    } else if i == 4 {
        ShortcutAction::Compose
    } else if i == 5 {
        ShortcutAction::Refresh
    } else if i == 6 {
        ShortcutAction::Next
    } else if i == 7 {
        ShortcutAction::Previous
    } else if i == 8 {
        ShortcutAction::Open
    } else if i == 9 {
        ShortcutAction::Undo
    } else if i == 10 {
        ShortcutAction::GoInbox
    } else if i == 11 {
        ShortcutAction::GoSnoozed
    } else if i == 12 {
        ShortcutAction::GoDone
    } else if i == 13 {
        ShortcutAction::Reply
    } else if i == 14 {
        ShortcutAction::ReplyAll
    } else if i == 15 {
        ShortcutAction::Forward
    } else if i == 16 {
        ShortcutAction::Help
    } else {
        ShortcutAction::Escape
    }
}

/// Display position and action agree in both directions.
pub proof fn lemma_action_index_bijective()
    ensures
        forall|a: ShortcutAction| 0 <= #[trigger] action_index(a) < 18 && action_at(action_index(a)) == a,
        forall|i: int| 0 <= i < 18 ==> action_index(#[trigger] action_at(i)) == i,
{
}

/// Human-readable label for an action.
pub open spec fn action_label(a: ShortcutAction) -> Seq<char> {
    match a {
        ShortcutAction::Done => "Mark Done"@,
        ShortcutAction::Pin => "Pin Toggle"@,
        ShortcutAction::Snooze => "Snooze"@,
        ShortcutAction::Search => "Search"@,
        ShortcutAction::Compose => "Compose"@,
        ShortcutAction::Refresh => "Refresh"@,
        ShortcutAction::Next => "Next"@,
        ShortcutAction::Previous => "Previous"@,
        ShortcutAction::Open => "Open"@,
        ShortcutAction::Undo => "Undo"@,
        ShortcutAction::GoInbox => "Go to Inbox"@,
        ShortcutAction::GoSnoozed => "Go to Snoozed"@,
        ShortcutAction::GoDone => "Go to Done"@,
        ShortcutAction::Reply => "Reply"@,
        ShortcutAction::ReplyAll => "Reply All"@,
        ShortcutAction::Forward => "Forward"@,
        ShortcutAction::Help => "Help"@,
        ShortcutAction::Escape => "Escape"@,
    }
}

/// The default binding of an action.
pub open spec fn default_binding(a: ShortcutAction) -> Seq<char> {
    match a {
        ShortcutAction::Done => "e"@,
        ShortcutAction::Pin => "="@,
        ShortcutAction::Snooze => "b"@,
        ShortcutAction::Search => "/"@,
        ShortcutAction::Compose => "c"@,
        ShortcutAction::Refresh => "r"@,
        ShortcutAction::Next => "j"@,
        ShortcutAction::Previous => "k"@,
        ShortcutAction::Open => "o"@,
        ShortcutAction::Undo => "Ctrl+Z"@,
        ShortcutAction::GoInbox => "g i"@,
        ShortcutAction::GoSnoozed => "g s"@,
        ShortcutAction::GoDone => "g d"@,
        ShortcutAction::Reply => "Shift+R"@,
        ShortcutAction::ReplyAll => "Shift+A"@,
        ShortcutAction::Forward => "f"@,
        ShortcutAction::Help => "?"@,
        ShortcutAction::Escape => "Esc"@,
    }
}

impl ShortcutAction {
    /// All shortcut actions in display order.
    pub const ALL: [ShortcutAction; 18] = [
        ShortcutAction::Done,
        ShortcutAction::Pin,
        ShortcutAction::Snooze,
        ShortcutAction::Search,
        ShortcutAction::Compose,
        ShortcutAction::Refresh,
        ShortcutAction::Next,
        ShortcutAction::Previous,
        ShortcutAction::Open,
        ShortcutAction::Undo,
        ShortcutAction::GoInbox,
        ShortcutAction::GoSnoozed,
        ShortcutAction::GoDone,
        ShortcutAction::Reply,
        ShortcutAction::ReplyAll,
        ShortcutAction::Forward,
        ShortcutAction::Help,
        ShortcutAction::Escape,
    ];

    /// Position of this action in display order.
    pub fn index(self) -> (r: usize)
        ensures
            r as int == action_index(self),
            r < ACTION_COUNT,
    {
        match self {
            ShortcutAction::Done => 0,
            ShortcutAction::Pin => 1,
            ShortcutAction::Snooze => 2,
            ShortcutAction::Search => 3,
            ShortcutAction::Compose => 4,
            ShortcutAction::Refresh => 5,
            ShortcutAction::Next => 6,
            ShortcutAction::Previous => 7,
            ShortcutAction::Open => 8,
            ShortcutAction::Undo => 9,
            ShortcutAction::GoInbox => 10,
            ShortcutAction::GoSnoozed => 11,
            ShortcutAction::GoDone => 12,
            ShortcutAction::Reply => 13,
            ShortcutAction::ReplyAll => 14,
            ShortcutAction::Forward => 15,
            ShortcutAction::Help => 16,
            ShortcutAction::Escape => 17,
        }
    }

    /// The action at a display position.
    pub fn at(i: usize) -> (r: ShortcutAction)
        requires
            i < ACTION_COUNT,
        ensures
            r == action_at(i as int),
    {
        if i == 0 {
            ShortcutAction::Done
        } else if i == 1 {
            ShortcutAction::Pin
        } else if i == 2 {
            ShortcutAction::Snooze
        } else if i == 3 {
            ShortcutAction::Search
        } else if i == 4 {
            ShortcutAction::Compose
        } else if i == 5 {
            ShortcutAction::Refresh
        } else if i == 6 {
            ShortcutAction::Next
        } else if i == 7 {
            ShortcutAction::Previous
        } else if i == 8 {
            ShortcutAction::Open
        } else if i == 9 {
            ShortcutAction::Undo
        } else if i == 10 {
            ShortcutAction::GoInbox
        } else if i == 11 {
            ShortcutAction::GoSnoozed
        } else if i == 12 {
            ShortcutAction::GoDone
        } else if i == 13 {
            ShortcutAction::Reply
        } else if i == 14 {
            ShortcutAction::ReplyAll
        } else if i == 15 {
            ShortcutAction::Forward
        } else if i == 16 {
            ShortcutAction::Help
        } else {
            ShortcutAction::Escape
        }
    }

    /// Human-readable label for display in settings UI.
    pub fn label(self) -> (r: &'static str)
        ensures
            r@ == action_label(self),
    {
        match self {
            ShortcutAction::Done => "Mark Done",
            ShortcutAction::Pin => "Pin Toggle",
            ShortcutAction::Snooze => "Snooze",
            ShortcutAction::Search => "Search",
            ShortcutAction::Compose => "Compose",
            ShortcutAction::Refresh => "Refresh",
            ShortcutAction::Next => "Next",
            ShortcutAction::Previous => "Previous",
            ShortcutAction::Open => "Open",
            ShortcutAction::Undo => "Undo",
            ShortcutAction::GoInbox => "Go to Inbox",
            ShortcutAction::GoSnoozed => "Go to Snoozed",
            ShortcutAction::GoDone => "Go to Done",
            ShortcutAction::Reply => "Reply",
            ShortcutAction::ReplyAll => "Reply All",
            ShortcutAction::Forward => "Forward",
            ShortcutAction::Help => "Help",
            ShortcutAction::Escape => "Escape",
        }
    }
}

/// Runtime keyboard shortcut map.
///
/// Holds the current binding of every action (defaults merged with the
/// user's overrides) next to the overrides alone, so only the deltas need
/// persisting.
#[derive(Debug)]
pub struct ShortcutMap {
    /// Current binding of each action, indexed by display position.
    bindings: Vec<String>,
    /// The user-customised binding of each action, if any.
    overrides: Vec<Option<String>>,
}

impl ShortcutMap {
    /// Every action has exactly one binding; an action without an override
    /// is bound to its default, and one with an override to that override.
    #[verifier::type_invariant]
    spec fn well_formed(self) -> bool {
        &&& self.bindings@.len() == 18
        &&& self.overrides@.len() == 18
        &&& forall|i: int|
            0 <= i < 18 ==> match #[trigger] self.overrides@[i] {
                Some(b) => self.bindings@[i]@ == b@,
                None => self.bindings@[i]@ == default_binding(action_at(i)),
            }
    }

    /// The override recorded for an action, if the user customised it.
    pub closed spec fn override_of(self, a: ShortcutAction) -> Option<Seq<char>> {
        match self.overrides@[action_index(a)] {
            Some(b) => Some(b@),
            None => None,
        }
    }

    /// The current binding of an action: its override where there is one,
    /// else its default.
    pub open spec fn binding(self, a: ShortcutAction) -> Seq<char> {
        match self.override_of(a) {
            Some(b) => b,
            None => default_binding(a),
        }
    }

    /// Create a map with all default bindings.
    pub fn defaults() -> (m: Self)
        ensures
            forall|a: ShortcutAction| #[trigger] m.binding(a) == default_binding(a),
            forall|a: ShortcutAction| #[trigger] m.override_of(a) == None::<Seq<char>>,
    {
        let mut bindings: Vec<String> = Vec::new();
        let mut overrides: Vec<Option<String>> = Vec::new();
        let mut i: usize = 0;
        while i < ACTION_COUNT
            invariant
                i <= 18,
                bindings@.len() == i,
                overrides@.len() == i,
                forall|j: int|
                    0 <= j < i ==> #[trigger] bindings@[j]@ == default_binding(action_at(j))
                        && overrides@[j] is None,
            decreases 18 - i,
        {
            let a = ShortcutAction::at(i);
            bindings.push(owned(Self::default_for(a)));
            overrides.push(None);
            i = i + 1;
        }
        proof {
            lemma_action_index_bijective();
        }
        ShortcutMap { bindings, overrides }
    }

    /// Get the binding for an action.
    pub fn get(&self, action: ShortcutAction) -> (r: &str)
        ensures
            r@ == self.binding(action),
    {
        proof {
            use_type_invariant(self);
            lemma_action_index_bijective();
            assert(self.overrides@[action_index(action)] == self.overrides@[action_index(action)]);
        }
        self.bindings[action.index()].as_str()
    }

    /// Override the binding for an action.
    pub fn set(&mut self, action: ShortcutAction, binding: String)
        ensures
            final(self).binding(action) == binding@,
            final(self).override_of(action) == Some(binding@),
            forall|a: ShortcutAction|
                a != action ==> #[trigger] final(self).override_of(a) == old(self).override_of(a),
            forall|a: ShortcutAction|
                a != action ==> #[trigger] final(self).binding(a) == old(self).binding(a),
            shortcut_set(*old(self), *final(self), action, binding@),
    {
        proof {
            use_type_invariant(&*self);
            lemma_action_index_bijective();
        }
        let i = action.index();
        let mut bindings = self.bindings.clone();
        let mut overrides = self.overrides.clone();
        proof {
            assert(bindings@ =~= self.bindings@);
            assert(overrides@ =~= self.overrides@);
        }
        let copy = binding.clone();
        bindings.set(i, binding);
        overrides.set(i, Some(copy));
        *self = ShortcutMap { bindings, overrides };
    }

    /// Reset an action to its default binding.
    pub fn reset(&mut self, action: ShortcutAction)
        ensures
            final(self).binding(action) == default_binding(action),
            final(self).override_of(action) == None::<Seq<char>>,
            forall|a: ShortcutAction|
                a != action ==> #[trigger] final(self).override_of(a) == old(self).override_of(a),
            forall|a: ShortcutAction|
                a != action ==> #[trigger] final(self).binding(a) == old(self).binding(a),
            shortcut_reset(*old(self), *final(self), action),
    {
        proof {
            use_type_invariant(&*self);
            lemma_action_index_bijective();
        }
        let i = action.index();
        let mut bindings = self.bindings.clone();
        let mut overrides = self.overrides.clone();
        proof {
            assert(bindings@ =~= self.bindings@);
            assert(overrides@ =~= self.overrides@);
        }
        bindings.set(i, owned(Self::default_for(action)));
        overrides.set(i, None);
        *self = ShortcutMap { bindings, overrides };
    }

    /// Whether the given action has been customised from its default.
    pub fn is_customised(&self, action: ShortcutAction) -> (r: bool)
        ensures
            r == (self.override_of(action) is Some),
    {
        proof {
            use_type_invariant(self);
        }
        self.overrides[action.index()].is_some()
    }

    /// The user's overrides, in display order (the delta that is persisted).
    pub fn overrides(&self) -> (r: Vec<(ShortcutAction, String)>)
        ensures
            forall|k: int|
                0 <= k < r@.len() ==> #[trigger] self.override_of(r@[k].0) == Some(r@[k].1@),
            forall|a: ShortcutAction|
                #[trigger] self.override_of(a) is Some ==> exists|k: int|
                    0 <= k < r@.len() && r@[k].0 == a,
            forall|k: int, l: int|
                0 <= k < l < r@.len() ==> action_index(r@[k].0) < action_index(r@[l].0),
            overrides_listed(*self, r@),
    {
        proof {
            use_type_invariant(self);
            lemma_action_index_bijective();
        }
        let mut r: Vec<(ShortcutAction, String)> = Vec::new();
        let mut i: usize = 0;
        while i < ACTION_COUNT
            invariant
                i <= 18,
                self.overrides@.len() == 18,
                forall|k: int|
                    0 <= k < r@.len() ==> #[trigger] self.override_of(r@[k].0) == Some(
                        r@[k].1@,
                    ) && action_index(r@[k].0) < i,
                forall|j: int|
                    0 <= j < i && self.overrides@[j] is Some ==> exists|k: int|
                        0 <= k < r@.len() && #[trigger] action_index(r@[k].0) == j,
                forall|k: int, l: int|
                    0 <= k < l < r@.len() ==> action_index(r@[k].0) < action_index(r@[l].0),
            decreases 18 - i,
        {
            match &self.overrides[i] {
                Some(b) => {
                    let a = ShortcutAction::at(i);
                    let ghost old_r = r@;
                    r.push((a, b.clone()));
                    assert(action_index(r@[old_r.len() as int].0) == i);
                    assert forall|k: int, l: int|
                        0 <= k < l < r@.len() implies action_index(r@[k].0) < action_index(
                        r@[l].0,
                    ) by {
                        if l < old_r.len() {
                            assert(r@[k] == old_r[k] && r@[l] == old_r[l]);
                        } else {
                            assert(r@[k] == old_r[k]);
                            assert(self.override_of(old_r[k].0) == Some(old_r[k].1@));
                        }
                    }
                    assert forall|j: int|
                        0 <= j < i + 1 && self.overrides@[j] is Some implies exists|k: int|
                        0 <= k < r@.len() && #[trigger] action_index(r@[k].0) == j by {
                        if j < i {
                            let k = choose|k: int|
                                0 <= k < old_r.len() && #[trigger] action_index(old_r[k].0) == j;
                            assert(r@[k] == old_r[k]);
                        } else {
                            assert(action_index(r@[old_r.len() as int].0) == j);
                        }
                    }
                },
                None => {},
            }
            i = i + 1;
        }
        proof {
            assert forall|a: ShortcutAction| #[trigger] self.override_of(a) is Some implies exists|
                k: int,
            | 0 <= k < r@.len() && r@[k].0 == a by {
                let j = action_index(a);
                let k = choose|k: int| 0 <= k < r@.len() && #[trigger] action_index(r@[k].0) == j;
                assert(action_at(action_index(r@[k].0)) == r@[k].0);
            }
        }
        r
    }

    /// A map with the given overrides applied over the defaults, in order
    /// (a later pair for the same action wins).
    pub fn from_overrides(pairs: Vec<(ShortcutAction, String)>) -> (m: Self)
        ensures
            forall|a: ShortcutAction| #[trigger]
                m.override_of(a) == last_override(pairs@.map_values(|p: (ShortcutAction, String)| (p.0, p.1@)), a),
            forall|a: ShortcutAction| #[trigger]
                m.binding(a) == match last_override(pairs@.map_values(|p: (ShortcutAction, String)| (p.0, p.1@)), a) {
                    Some(b) => b,
                    None => default_binding(a),
                },
    {
        let ghost model = pairs@.map_values(|p: (ShortcutAction, String)| (p.0, p.1@));
        let mut m = Self::defaults();
        let mut i: usize = 0;
        while i < pairs.len()
            invariant
                i <= pairs@.len(),
                model == pairs@.map_values(|p: (ShortcutAction, String)| (p.0, p.1@)),
                forall|a: ShortcutAction| #[trigger]
                    m.override_of(a) == last_override(model.take(i as int), a),
            decreases pairs@.len() - i,
        {
            let a = pairs[i].0;
            let b = pairs[i].1.clone();
            assert(b@ == pairs@[i as int].1@);
            let ghost old_m = m;
            m.set(a, b);
            proof {
                assert(model[i as int] == (a, pairs@[i as int].1@));
                assert forall|x: ShortcutAction| #[trigger]
                    m.override_of(x) == last_override(model.take(i + 1), x) by {
                    assert(model.take(i + 1).drop_last() =~= model.take(i as int));
                    assert(model.take(i + 1).last() == model[i as int]);
                    if x != a {
                        assert(m.override_of(x) == old_m.override_of(x));
                    }
                }
                assert(model.take(i + 1).drop_last() =~= model.take(i as int));
                assert(model.take(i + 1).last() == model[i as int]);
            }
            i = i + 1;
        }
        proof {
            assert(model.take(pairs@.len() as int) =~= model);
        }
        m
    }

    /// Find the action bound to the given key string, if any.
    ///
    /// When several actions share a key, the first in display order wins.
    pub fn action_for_key(&self, key: &str) -> (r: Option<ShortcutAction>)
        ensures
            match r {
                Some(a) => self.binding(a) == key@ && forall|b: ShortcutAction|
                    action_index(b) < action_index(a) ==> #[trigger] self.binding(b) != key@,
                None => forall|a: ShortcutAction| #[trigger] self.binding(a) != key@,
            },
    {
        proof {
            use_type_invariant(self);
            lemma_action_index_bijective();
        }
        let k = chars_of(key);
        let mut i: usize = 0;
        while i < ACTION_COUNT
            invariant
                i <= 18,
                self.well_formed(),
                k@ == key@,
                forall|j: int| 0 <= j < i ==> #[trigger] self.bindings@[j]@ != key@,
            decreases 18 - i,
        {
            let b = chars_of(self.bindings[i].as_str());
            if chars_eq(b.as_slice(), k.as_slice()) {
                proof {
                    assert(self.overrides@[i as int] == self.overrides@[i as int]);
                    assert forall|b: ShortcutAction| action_index(b) < i implies #[trigger] self.binding(b)
                        != key@ by {
                        assert(self.bindings@[action_index(b)]@ != key@);
                    }
                }
                return Some(ShortcutAction::at(i));
            }
            i = i + 1;
        }
        proof {
            assert forall|a: ShortcutAction| #[trigger] self.binding(a) != key@ by {
                assert(self.bindings@[action_index(a)]@ != key@);
            }
        }
        None
    }

    /// All actions in display order with their current bindings.
    pub fn iter_display_order(&self) -> (r: Vec<(ShortcutAction, String)>)
        ensures
            r@.len() == 18,
            forall|i: int|
                0 <= i < 18 ==> #[trigger] r@[i].0 == action_at(i) && r@[i].1@ == self.binding(
                    action_at(i),
                ),
    {
        proof {
            use_type_invariant(self);
            lemma_action_index_bijective();
        }
        let mut r: Vec<(ShortcutAction, String)> = Vec::new();
        let mut i: usize = 0;
        while i < ACTION_COUNT
            invariant
                i <= 18,
                r@.len() == i,
                forall|j: int|
                    0 <= j < i ==> #[trigger] r@[j].0 == action_at(j) && r@[j].1@ == self.binding(
                        action_at(j),
                    ),
            decreases 18 - i,
        {
            let a = ShortcutAction::at(i);
            r.push((a, owned(self.get(a))));
            i = i + 1;
        }
        r
    }

    /// The default binding for a single action.
    pub fn default_for(action: ShortcutAction) -> (r: &'static str)
        ensures
            r@ == default_binding(action),
    {
        match action {
            ShortcutAction::Done => "e",
            ShortcutAction::Pin => "=",
            ShortcutAction::Snooze => "b",
            ShortcutAction::Search => "/",
            ShortcutAction::Compose => "c",
            ShortcutAction::Refresh => "r",
            ShortcutAction::Next => "j",
            ShortcutAction::Previous => "k",
            ShortcutAction::Open => "o",
            ShortcutAction::Undo => "Ctrl+Z",
            ShortcutAction::GoInbox => "g i",
            ShortcutAction::GoSnoozed => "g s",
            ShortcutAction::GoDone => "g d",
            ShortcutAction::Reply => "Shift+R",
            ShortcutAction::ReplyAll => "Shift+A",
            ShortcutAction::Forward => "f",
            ShortcutAction::Help => "?",
            ShortcutAction::Escape => "Esc",
        }
    }

    /// All (action, default-binding) pairs in display order.
    pub fn default_pairs() -> (r: Vec<(ShortcutAction, &'static str)>)
        ensures
            r@.len() == 18,
            forall|i: int|
                0 <= i < 18 ==> #[trigger] r@[i].0 == action_at(i) && r@[i].1@ == default_binding(
                    action_at(i),
                ),
    {
        let mut r: Vec<(ShortcutAction, &'static str)> = Vec::new();
        let mut i: usize = 0;
        while i < ACTION_COUNT
            invariant
                i <= 18,
                r@.len() == i,
                forall|j: int|
                    0 <= j < i ==> #[trigger] r@[j].0 == action_at(j) && r@[j].1@
                        == default_binding(action_at(j)),
            decreases 18 - i,
        {
            let a = ShortcutAction::at(i);
            r.push((a, Self::default_for(a)));
            i = i + 1;
        }
        r
    }
}

/// The length, first and last character of a binding: enough to tell the
/// default bindings apart.
pub open spec fn binding_signature(s: Seq<char>) -> (int, char, char) {
    (s.len() as int, s[0], s[s.len() - 1])
}

/// The signature of each default binding.
pub open spec fn default_signature(a: ShortcutAction) -> (int, char, char) {
    match a {
        ShortcutAction::Done => (1, 'e', 'e'),
        ShortcutAction::Pin => (1, '=', '='),
        ShortcutAction::Snooze => (1, 'b', 'b'),
        ShortcutAction::Search => (1, '/', '/'),
        ShortcutAction::Compose => (1, 'c', 'c'),
        ShortcutAction::Refresh => (1, 'r', 'r'),
        ShortcutAction::Next => (1, 'j', 'j'),
        ShortcutAction::Previous => (1, 'k', 'k'),
        ShortcutAction::Open => (1, 'o', 'o'),
        ShortcutAction::Undo => (6, 'C', 'Z'),
        ShortcutAction::GoInbox => (3, 'g', 'i'),
        ShortcutAction::GoSnoozed => (3, 'g', 's'),
        ShortcutAction::GoDone => (3, 'g', 'd'),
        ShortcutAction::Reply => (7, 'S', 'R'),
        ShortcutAction::ReplyAll => (7, 'S', 'A'),
        ShortcutAction::Forward => (1, 'f', 'f'),
        ShortcutAction::Help => (1, '?', '?'),
        ShortcutAction::Escape => (3, 'E', 'c'),
    }
}

proof fn lemma_default_signature(a: ShortcutAction)
    ensures
        default_binding(a).len() > 0,
        binding_signature(default_binding(a)) == default_signature(a),
{
    reveal_strlit("e");
    reveal_strlit("=");
    reveal_strlit("b");
    reveal_strlit("/");
    reveal_strlit("c");
    reveal_strlit("r");
    reveal_strlit("j");
    reveal_strlit("k");
    reveal_strlit("o");
    reveal_strlit("Ctrl+Z");
    reveal_strlit("g i");
    reveal_strlit("g s");
    reveal_strlit("g d");
    reveal_strlit("Shift+R");
    reveal_strlit("Shift+A");
    reveal_strlit("f");
    reveal_strlit("?");
    reveal_strlit("Esc");
}

/// The default bindings are non-empty and pairwise distinct: no two
/// actions share a default key.
pub proof fn law_default_bindings_distinct(a: ShortcutAction, b: ShortcutAction)
    ensures
        default_binding(a).len() > 0,
        default_binding(a) == default_binding(b) ==> a == b,
{
    lemma_default_signature(a);
    lemma_default_signature(b);
}

/// In a map with the default bindings, looking up an action's default key
/// finds that action: a lookup that finds an action `b` for the default
/// key of `a`, or finds none, can only be `Some(a)`.
pub proof fn law_default_key_finds_its_action(m: ShortcutMap, a: ShortcutAction, r: Option<ShortcutAction>)
    requires
        forall|x: ShortcutAction| #[trigger] m.binding(x) == default_binding(x),
        match r {
            Some(b) => m.binding(b) == default_binding(a),
            None => forall|x: ShortcutAction| #[trigger] m.binding(x) != default_binding(a),
        },
    ensures
        r == Some(a),
{
    match r {
        Some(b) => {
            assert(m.binding(b) == default_binding(b));
            law_default_bindings_distinct(a, b);
        },
        None => {
            assert(m.binding(a) == default_binding(a));
        },
    }
}

/// The last override given for an action in a sequence of pairs.
pub open spec fn last_override(pairs: Seq<(ShortcutAction, Seq<char>)>, a: ShortcutAction) -> Option<
    Seq<char>,
>
    decreases pairs.len(),
{
    if pairs.len() == 0 {
        None
    } else if pairs.last().0 == a {
        Some(pairs.last().1)
    } else {
        last_override(pairs.drop_last(), a)
    }
}

impl Clone for ShortcutMap {
    fn clone(&self) -> (m: Self)
        ensures
            forall|a: ShortcutAction| #[trigger] m.override_of(a) == self.override_of(a),
    {
        proof {
            use_type_invariant(self);
        }
        let bindings = self.bindings.clone();
        let overrides = self.overrides.clone();
        proof {
            assert(bindings@ =~= self.bindings@);
            assert(overrides@ =~= self.overrides@);
        }
        ShortcutMap { bindings, overrides }
    }
}

impl Default for ShortcutMap {
    fn default() -> (m: Self)
        ensures
            forall|a: ShortcutAction| #[trigger] m.binding(a) == default_binding(a),
            forall|a: ShortcutAction| #[trigger] m.override_of(a) == None::<Seq<char>>,
    {
        Self::defaults()
    }
}

/// `m2` is `m1` with the user's binding `b` for `action`.
pub open spec fn shortcut_set(m1: ShortcutMap, m2: ShortcutMap, action: ShortcutAction, b: Seq<char>) -> bool {
    &&& m2.binding(action) == b
    &&& m2.override_of(action) == Some(b)
    &&& forall|a: ShortcutAction| a != action ==> #[trigger] m2.override_of(a) == m1.override_of(a)
    &&& forall|a: ShortcutAction| a != action ==> #[trigger] m2.binding(a) == m1.binding(a)
}

/// `m2` is `m1` with `action` back at its default binding.
pub open spec fn shortcut_reset(m1: ShortcutMap, m2: ShortcutMap, action: ShortcutAction) -> bool {
    &&& m2.binding(action) == default_binding(action)
    &&& m2.override_of(action) == None::<Seq<char>>
    &&& forall|a: ShortcutAction| a != action ==> #[trigger] m2.override_of(a) == m1.override_of(a)
    &&& forall|a: ShortcutAction| a != action ==> #[trigger] m2.binding(a) == m1.binding(a)
}

/// `r` lists the user's overrides of `m`, one per overridden action, in
/// display order.
pub open spec fn overrides_listed(m: ShortcutMap, r: Seq<(ShortcutAction, String)>) -> bool {
    &&& forall|k: int| 0 <= k < r.len() ==> #[trigger] m.override_of(r[k].0) == Some(r[k].1@)
    &&& forall|a: ShortcutAction|
        #[trigger] m.override_of(a) is Some ==> exists|k: int| 0 <= k < r.len() && r[k].0 == a
    &&& forall|k: int, l: int|
        0 <= k < l < r.len() ==> action_index(r[k].0) < action_index(r[l].0)
}

/// The overrides as action/text pairs.
pub open spec fn override_pairs(list: Seq<(ShortcutAction, String)>) -> Seq<(ShortcutAction, Seq<char>)> {
    list.map_values(|p: (ShortcutAction, String)| (p.0, p.1@))
}

/// In a list whose actions come in strictly increasing display order, the
/// last override of an action is its only one.
proof fn lemma_last_override_unique(l: Seq<(ShortcutAction, Seq<char>)>, a: ShortcutAction)
    requires
        forall|k: int, j: int| 0 <= k < j < l.len() ==> action_index(l[k].0) < action_index(l[j].0),
    ensures
        match last_override(l, a) {
            Some(b) => exists|k: int| 0 <= k < l.len() && l[k] == (a, b),
            None => forall|k: int| 0 <= k < l.len() ==> l[k].0 != a,
        },
    decreases l.len(),
{
    if l.len() > 0 {
        let last = l.last();
        if last.0 == a {
            assert(l[l.len() - 1] == (a, last.1));
        } else {
            let d = l.drop_last();
            assert forall|k: int, j: int| 0 <= k < j < d.len() implies action_index(d[k].0) < action_index(d[j].0) by {
                assert(d[k] == l[k] && d[j] == l[j]);
            }
            lemma_last_override_unique(d, a);
            match last_override(d, a) {
                Some(b) => {
                    let k = choose|k: int| 0 <= k < d.len() && d[k] == (a, b);
                    assert(l[k] == d[k]);
                },
                None => {
                    assert forall|k: int| 0 <= k < l.len() implies l[k].0 != a by {
                        if k < d.len() {
                            assert(l[k] == d[k]);
                        }
                    }
                },
            }
        }
    }
}

/// Persisting only the overrides loses nothing: the listed overrides of a
/// map, applied over the defaults, give back every action's override (and
/// so its binding).
pub proof fn law_overrides_round_trip(m: ShortcutMap, list: Seq<(ShortcutAction, String)>)
    requires
        overrides_listed(m, list),
    ensures
        forall|a: ShortcutAction| #[trigger] last_override(override_pairs(list), a) == m.override_of(a),
{
    let l = override_pairs(list);
    assert forall|k: int, j: int| 0 <= k < j < l.len() implies action_index(l[k].0) < action_index(l[j].0) by {
        assert(l[k].0 == list[k].0 && l[j].0 == list[j].0);
    }
    assert forall|a: ShortcutAction| #[trigger] last_override(l, a) == m.override_of(a) by {
        lemma_last_override_unique(l, a);
        match last_override(l, a) {
            Some(b) => {
                let k = choose|k: int| 0 <= k < l.len() && l[k] == (a, b);
                assert(m.override_of(list[k].0) == Some(list[k].1@));
            },
            None => {
                if m.override_of(a) is Some {
                    let k = choose|k: int| 0 <= k < list.len() && list[k].0 == a;
                    assert(l[k].0 == a);
                }
            },
        }
    }
}

} // verus!
