//! The persisted form of the shortcut overrides: a JSON object from each
//! customised action's snake_case name to its binding.

use vstd::prelude::*;

use crate::json::{json_string_object, keys_distinct, pairs_map, parse_string_object, string_object_json, string_object_to_json, text_pairs};
use crate::keyboard::{ShortcutAction, ShortcutMap, action_index, last_override, overrides_listed};
use crate::text::owned;

verus! {

/// The snake_case name under which an action is stored.
pub open spec fn action_serde_name(a: ShortcutAction) -> Seq<char> {
    match a {
        ShortcutAction::Done => "done"@,
        ShortcutAction::Pin => "pin"@,
        ShortcutAction::Snooze => "snooze"@,
        ShortcutAction::Search => "search"@,
        ShortcutAction::Compose => "compose"@,
        ShortcutAction::Refresh => "refresh"@,
        ShortcutAction::Next => "next"@,
        ShortcutAction::Previous => "previous"@,
        ShortcutAction::Open => "open"@,
        ShortcutAction::Undo => "undo"@,
        ShortcutAction::GoInbox => "go_inbox"@,
        ShortcutAction::GoSnoozed => "go_snoozed"@,
        ShortcutAction::GoDone => "go_done"@,
        ShortcutAction::Reply => "reply"@,
        ShortcutAction::ReplyAll => "reply_all"@,
        ShortcutAction::Forward => "forward"@,
        ShortcutAction::Help => "help"@,
        ShortcutAction::Escape => "escape"@,
    }
}

/// The action stored under a name, if any.
pub open spec fn action_named(name: Seq<char>) -> Option<ShortcutAction> {
    if name == "done"@ {
        Some(ShortcutAction::Done)
    } else if name == "pin"@ {
        Some(ShortcutAction::Pin)
    } else if name == "snooze"@ {
        Some(ShortcutAction::Snooze)
    } else if name == "search"@ {
        Some(ShortcutAction::Search)
    } else if name == "compose"@ {
        Some(ShortcutAction::Compose)
    } else if name == "refresh"@ {
        Some(ShortcutAction::Refresh)
    } else if name == "next"@ {
        Some(ShortcutAction::Next)
    } else if name == "previous"@ {
        Some(ShortcutAction::Previous)
    } else if name == "open"@ {
        Some(ShortcutAction::Open)
    } else if name == "undo"@ {
        Some(ShortcutAction::Undo)
    } else if name == "go_inbox"@ {
        Some(ShortcutAction::GoInbox)
    } else if name == "go_snoozed"@ {
        Some(ShortcutAction::GoSnoozed)
    } else if name == "go_done"@ {
        Some(ShortcutAction::GoDone)
    } else if name == "reply"@ {
        Some(ShortcutAction::Reply)
    } else if name == "reply_all"@ {
        Some(ShortcutAction::ReplyAll)
    } else if name == "forward"@ {
        Some(ShortcutAction::Forward)
    } else if name == "help"@ {
        Some(ShortcutAction::Help)
    } else if name == "escape"@ {
        Some(ShortcutAction::Escape)
    } else {
        None
    }
}

/// The overrides a JSON object's entries name, in order; `None` as soon
/// as one key names no action.
pub open spec fn decode_entries(entries: Seq<(Seq<char>, Seq<char>)>) -> Option<Seq<(ShortcutAction, Seq<char>)>>
    decreases entries.len(),
{
    if entries.len() == 0 {
        Some(Seq::empty())
    } else {
        match (decode_entries(entries.drop_last()), action_named(entries.last().0)) {
            (Some(d), Some(a)) => Some(d.push((a, entries.last().1))),
            _ => None,
        }
    }
}

/// The override of `a` that a stored JSON text gives: none unless the
/// text is an object of strings whose every key names an action.
pub open spec fn json_override(json: Seq<char>, a: ShortcutAction) -> Option<Seq<char>> {
    match json_string_object(json) {
        Some(entries) => match decode_entries(entries) {
            Some(d) => last_override(d, a),
            None => None,
        },
        None => None,
    }
}

/// The pairs written for a list of overrides: each action's stored name
/// with its binding.
pub open spec fn named_overrides(list: Seq<(ShortcutAction, String)>) -> Seq<(Seq<char>, Seq<char>)> {
    list.map_values(|p: (ShortcutAction, String)| (action_serde_name(p.0), p.1@))
}

/// `text` is what `to_overrides_json` writes for `m`: the JSON object of
/// its overrides listed in display order.
pub open spec fn is_overrides_json(m: ShortcutMap, text: Seq<char>) -> bool {
    exists|list: Seq<(ShortcutAction, String)>|
        overrides_listed(m, list) && text == string_object_json(named_overrides(list))
}

/// Every action's stored name reads back as that action.
pub proof fn lemma_serde_name_round_trip()
    ensures
        forall|a: ShortcutAction| #[trigger] action_named(action_serde_name(a)) == Some(a),
{
    assert forall|a: ShortcutAction| #[trigger] action_named(action_serde_name(a)) == Some(a) by {
        lemma_serde_name_reads_back(a);
    }
}

/// One action's stored name reads back as that action.
proof fn lemma_serde_name_reads_back(a: ShortcutAction)
    ensures
        action_named(action_serde_name(a)) == Some(a),
{
    reveal_strlit("done");
    reveal_strlit("pin");
    reveal_strlit("snooze");
    reveal_strlit("search");
    reveal_strlit("compose");
    reveal_strlit("refresh");
    reveal_strlit("next");
    reveal_strlit("previous");
    reveal_strlit("open");
    reveal_strlit("undo");
    reveal_strlit("go_inbox");
    reveal_strlit("go_snoozed");
    reveal_strlit("go_done");
    reveal_strlit("reply");
    reveal_strlit("reply_all");
    reveal_strlit("forward");
    reveal_strlit("help");
    reveal_strlit("escape");
    match a {
        ShortcutAction::Done => {

        },
        ShortcutAction::Pin => {
            assert("pin"@.len() != "done"@.len());
        },
        ShortcutAction::Snooze => {
            assert("snooze"@.len() != "done"@.len());
            assert("snooze"@.len() != "pin"@.len());
        },
        ShortcutAction::Search => {
            assert("search"@.len() != "done"@.len());
            assert("search"@.len() != "pin"@.len());
            assert("search"@[1] != "snooze"@[1]);
        },
        ShortcutAction::Compose => {
            assert("compose"@.len() != "done"@.len());
            assert("compose"@.len() != "pin"@.len());
            assert("compose"@.len() != "snooze"@.len());
            assert("compose"@.len() != "search"@.len());
        },
        ShortcutAction::Refresh => {
            assert("refresh"@.len() != "done"@.len());
            assert("refresh"@.len() != "pin"@.len());
            assert("refresh"@.len() != "snooze"@.len());
            assert("refresh"@.len() != "search"@.len());
            assert("refresh"@[0] != "compose"@[0]);
        },
        ShortcutAction::Next => {
            assert("next"@[0] != "done"@[0]);
            assert("next"@.len() != "pin"@.len());
            assert("next"@.len() != "snooze"@.len());
            assert("next"@.len() != "search"@.len());
            assert("next"@.len() != "compose"@.len());
            assert("next"@.len() != "refresh"@.len());
        },
        ShortcutAction::Previous => {
            assert("previous"@.len() != "done"@.len());
            assert("previous"@.len() != "pin"@.len());
            assert("previous"@.len() != "snooze"@.len());
            assert("previous"@.len() != "search"@.len());
            assert("previous"@.len() != "compose"@.len());
            assert("previous"@.len() != "refresh"@.len());
            assert("previous"@.len() != "next"@.len());
        },
        ShortcutAction::Open => {
            assert("open"@[0] != "done"@[0]);
            assert("open"@.len() != "pin"@.len());
            assert("open"@.len() != "snooze"@.len());
            assert("open"@.len() != "search"@.len());
            assert("open"@.len() != "compose"@.len());
            assert("open"@.len() != "refresh"@.len());
            assert("open"@[0] != "next"@[0]);
            assert("open"@.len() != "previous"@.len());
        },
        ShortcutAction::Undo => {
            assert("undo"@[0] != "done"@[0]);
            assert("undo"@.len() != "pin"@.len());
            assert("undo"@.len() != "snooze"@.len());
            assert("undo"@.len() != "search"@.len());
            assert("undo"@.len() != "compose"@.len());
            assert("undo"@.len() != "refresh"@.len());
            assert("undo"@[0] != "next"@[0]);
            assert("undo"@.len() != "previous"@.len());
            assert("undo"@[0] != "open"@[0]);
        },
        ShortcutAction::GoInbox => {
            assert("go_inbox"@.len() != "done"@.len());
            assert("go_inbox"@.len() != "pin"@.len());
            assert("go_inbox"@.len() != "snooze"@.len());
            assert("go_inbox"@.len() != "search"@.len());
            assert("go_inbox"@.len() != "compose"@.len());
            assert("go_inbox"@.len() != "refresh"@.len());
            assert("go_inbox"@.len() != "next"@.len());
            assert("go_inbox"@[0] != "previous"@[0]);
            assert("go_inbox"@.len() != "open"@.len());
            assert("go_inbox"@.len() != "undo"@.len());
        },
        ShortcutAction::GoSnoozed => {
            assert("go_snoozed"@.len() != "done"@.len());
            assert("go_snoozed"@.len() != "pin"@.len());
            assert("go_snoozed"@.len() != "snooze"@.len());
            assert("go_snoozed"@.len() != "search"@.len());
            assert("go_snoozed"@.len() != "compose"@.len());
            assert("go_snoozed"@.len() != "refresh"@.len());
            assert("go_snoozed"@.len() != "next"@.len());
            assert("go_snoozed"@.len() != "previous"@.len());
            assert("go_snoozed"@.len() != "open"@.len());
            assert("go_snoozed"@.len() != "undo"@.len());
            assert("go_snoozed"@.len() != "go_inbox"@.len());
        },
        ShortcutAction::GoDone => {
            assert("go_done"@.len() != "done"@.len());
            assert("go_done"@.len() != "pin"@.len());
            assert("go_done"@.len() != "snooze"@.len());
            assert("go_done"@.len() != "search"@.len());
            assert("go_done"@[0] != "compose"@[0]);
            assert("go_done"@[0] != "refresh"@[0]);
            assert("go_done"@.len() != "next"@.len());
            assert("go_done"@.len() != "previous"@.len());
            assert("go_done"@.len() != "open"@.len());
            assert("go_done"@.len() != "undo"@.len());
            assert("go_done"@.len() != "go_inbox"@.len());
            assert("go_done"@.len() != "go_snoozed"@.len());
        },
        ShortcutAction::Reply => {
            assert("reply"@.len() != "done"@.len());
            assert("reply"@.len() != "pin"@.len());
            assert("reply"@.len() != "snooze"@.len());
            assert("reply"@.len() != "search"@.len());
            assert("reply"@.len() != "compose"@.len());
            assert("reply"@.len() != "refresh"@.len());
            assert("reply"@.len() != "next"@.len());
            assert("reply"@.len() != "previous"@.len());
            assert("reply"@.len() != "open"@.len());
            assert("reply"@.len() != "undo"@.len());
            assert("reply"@.len() != "go_inbox"@.len());
            assert("reply"@.len() != "go_snoozed"@.len());
            assert("reply"@.len() != "go_done"@.len());
        },
        ShortcutAction::ReplyAll => {
            assert("reply_all"@.len() != "done"@.len());
            assert("reply_all"@.len() != "pin"@.len());
            assert("reply_all"@.len() != "snooze"@.len());
            assert("reply_all"@.len() != "search"@.len());
            assert("reply_all"@.len() != "compose"@.len());
            assert("reply_all"@.len() != "refresh"@.len());
            assert("reply_all"@.len() != "next"@.len());
            assert("reply_all"@.len() != "previous"@.len());
            assert("reply_all"@.len() != "open"@.len());
            assert("reply_all"@.len() != "undo"@.len());
            assert("reply_all"@.len() != "go_inbox"@.len());
            assert("reply_all"@.len() != "go_snoozed"@.len());
            assert("reply_all"@.len() != "go_done"@.len());
            assert("reply_all"@.len() != "reply"@.len());
        },
        ShortcutAction::Forward => {
            assert("forward"@.len() != "done"@.len());
            assert("forward"@.len() != "pin"@.len());
            assert("forward"@.len() != "snooze"@.len());
            assert("forward"@.len() != "search"@.len());
            assert("forward"@[0] != "compose"@[0]);
            assert("forward"@[0] != "refresh"@[0]);
            assert("forward"@.len() != "next"@.len());
            assert("forward"@.len() != "previous"@.len());
            assert("forward"@.len() != "open"@.len());
            assert("forward"@.len() != "undo"@.len());
            assert("forward"@.len() != "go_inbox"@.len());
            assert("forward"@.len() != "go_snoozed"@.len());
            assert("forward"@[0] != "go_done"@[0]);
            assert("forward"@.len() != "reply"@.len());
            assert("forward"@.len() != "reply_all"@.len());
        },
        ShortcutAction::Help => {
            assert("help"@[0] != "done"@[0]);
            assert("help"@.len() != "pin"@.len());
            assert("help"@.len() != "snooze"@.len());
            assert("help"@.len() != "search"@.len());
            assert("help"@.len() != "compose"@.len());
            assert("help"@.len() != "refresh"@.len());
            assert("help"@[0] != "next"@[0]);
            assert("help"@.len() != "previous"@.len());
            assert("help"@[0] != "open"@[0]);
            assert("help"@[0] != "undo"@[0]);
            assert("help"@.len() != "go_inbox"@.len());
            assert("help"@.len() != "go_snoozed"@.len());
            assert("help"@.len() != "go_done"@.len());
            assert("help"@.len() != "reply"@.len());
            assert("help"@.len() != "reply_all"@.len());
            assert("help"@.len() != "forward"@.len());
        },
        ShortcutAction::Escape => {
            assert("escape"@.len() != "done"@.len());
            assert("escape"@.len() != "pin"@.len());
            assert("escape"@[0] != "snooze"@[0]);
            assert("escape"@[0] != "search"@[0]);
            assert("escape"@.len() != "compose"@.len());
            assert("escape"@.len() != "refresh"@.len());
            assert("escape"@.len() != "next"@.len());
            assert("escape"@.len() != "previous"@.len());
            assert("escape"@.len() != "open"@.len());
            assert("escape"@.len() != "undo"@.len());
            assert("escape"@.len() != "go_inbox"@.len());
            assert("escape"@.len() != "go_snoozed"@.len());
            assert("escape"@.len() != "go_done"@.len());
            assert("escape"@.len() != "reply"@.len());
            assert("escape"@.len() != "reply_all"@.len());
            assert("escape"@.len() != "forward"@.len());
            assert("escape"@.len() != "help"@.len());
        },
    }
}

/// A name reads as an action only when it is that action's stored name.
proof fn lemma_action_named_sound(n: Seq<char>)
    ensures
        action_named(n) matches Some(a) ==> n == action_serde_name(a),
{
}

/// In pairs whose keys are distinct, the map holds each pair's key with
/// its value, and nothing else.
proof fn lemma_pairs_map_distinct(p: Seq<(Seq<char>, Seq<char>)>)
    requires
        keys_distinct(p),
    ensures
        forall|x: Seq<char>| #[trigger] pairs_map(p).contains_key(x) <==> exists|i: int| 0 <= i < p.len() && p[i].0 == x,
        forall|i: int| 0 <= i < p.len() ==> #[trigger] pairs_map(p)[p[i].0] == p[i].1,
    decreases p.len(),
{
    if p.len() > 0 {
        let q = p.drop_last();
        assert(keys_distinct(q)) by {
            assert forall|i: int, j: int| 0 <= i < j < q.len() implies q[i].0 != q[j].0 by {
                assert(q[i] == p[i] && q[j] == p[j]);
            }
        }
        lemma_pairs_map_distinct(q);
        assert(pairs_map(p) == pairs_map(q).insert(p.last().0, p.last().1));
        assert forall|x: Seq<char>| #[trigger] pairs_map(p).contains_key(x) <==> exists|i: int| 0 <= i < p.len() && p[i].0 == x by {
            if x == p.last().0 {
                assert(p[p.len() - 1].0 == x);
            }
            if pairs_map(p).contains_key(x) && x != p.last().0 {
                assert(pairs_map(q).contains_key(x));
                let i = choose|i: int| 0 <= i < q.len() && q[i].0 == x;
                assert(p[i] == q[i]);
            }
            if exists|i: int| 0 <= i < p.len() && p[i].0 == x {
                let i = choose|i: int| 0 <= i < p.len() && p[i].0 == x;
                if i < q.len() {
                    assert(q[i] == p[i]);
                }
            }
        }
        assert forall|i: int| 0 <= i < p.len() implies #[trigger] pairs_map(p)[p[i].0] == p[i].1 by {
            if i < q.len() {
                assert(q[i] == p[i]);
                assert(p[i].0 != p.last().0);
            }
        }
    }
}

/// Entries whose keys all name actions decode, key by key.
proof fn lemma_decode_all(e: Seq<(Seq<char>, Seq<char>)>)
    requires
        forall|i: int| 0 <= i < e.len() ==> (#[trigger] action_named(e[i].0)) is Some,
    ensures
        decode_entries(e) matches Some(d) && d.len() == e.len() && forall|i: int|
            0 <= i < e.len() ==> #[trigger] d[i] == (action_named(e[i].0)->0, e[i].1),
    decreases e.len(),
{
    if e.len() > 0 {
        let q = e.drop_last();
        assert forall|i: int| 0 <= i < q.len() implies (#[trigger] action_named(q[i].0)) is Some by {
            assert(q[i] == e[i]);
        }
        lemma_decode_all(q);
        assert(action_named(e[e.len() - 1].0) is Some);
        let d = decode_entries(e)->0;
        let dq = decode_entries(q)->0;
        assert forall|i: int| 0 <= i < e.len() implies #[trigger] d[i] == (action_named(e[i].0)->0, e[i].1) by {
            if i < q.len() {
                assert(q[i] == e[i]);
                assert(d[i] == dq[i]);
            }
        }
    }
}

/// In pairs whose actions are distinct, the last override of an action is
/// its only one.
proof fn lemma_last_override_distinct(l: Seq<(ShortcutAction, Seq<char>)>, a: ShortcutAction)
    requires
        forall|k: int, j: int| 0 <= k < j < l.len() ==> l[k].0 != l[j].0,
    ensures
        match last_override(l, a) {
            Some(b) => exists|k: int| 0 <= k < l.len() && l[k] == (a, b),
            None => forall|k: int| 0 <= k < l.len() ==> l[k].0 != a,
        },
    decreases l.len(),
{
    if l.len() > 0 {
        let last = l.last();
        if last.0 == a {
            assert(l[l.len() - 1] == (a, last.1));
        } else {
            let d = l.drop_last();
            assert forall|k: int, j: int| 0 <= k < j < d.len() implies d[k].0 != d[j].0 by {
                assert(d[k] == l[k] && d[j] == l[j]);
            }
            lemma_last_override_distinct(d, a);
            match last_override(d, a) {
                Some(b) => {
                    let k = choose|k: int| 0 <= k < d.len() && d[k] == (a, b);
                    assert(l[k] == d[k]);
                },
                None => {
                    assert forall|k: int| 0 <= k < l.len() implies l[k].0 != a by {
                        if k < d.len() {
                            assert(l[k] == d[k]);
                        }
                    }
                },
            }
        }
    }
}

/// Writing the listed overrides of a map and reading the text back gives
/// every action's override.
proof fn lemma_written_overrides_read_back(
    m: ShortcutMap,
    list: Seq<(ShortcutAction, String)>,
    text: Seq<char>,
)
    requires
        overrides_listed(m, list),
        json_string_object(text) matches Some(e) && keys_distinct(e) && pairs_map(e) == pairs_map(
            named_overrides(list),
        ),
    ensures
        forall|a: ShortcutAction| #[trigger] json_override(text, a) == m.override_of(a),
{
    lemma_serde_name_round_trip();
    let e = json_string_object(text)->0;
    let n = named_overrides(list);
    assert(keys_distinct(n)) by {
        assert forall|i: int, j: int| 0 <= i < j < n.len() implies n[i].0 != n[j].0 by {
            assert(action_index(list[i].0) < action_index(list[j].0));
            assert(action_named(n[i].0) == Some(list[i].0));
            assert(action_named(n[j].0) == Some(list[j].0));
        }
    }
    lemma_pairs_map_distinct(n);
    lemma_pairs_map_distinct(e);
    assert forall|i: int| 0 <= i < e.len() implies (#[trigger] action_named(e[i].0)) is Some by {
        assert(pairs_map(e).contains_key(e[i].0));
        let k = choose|k: int| 0 <= k < n.len() && n[k].0 == e[i].0;
        assert(n[k].0 == action_serde_name(list[k].0));
    }
    lemma_decode_all(e);
    let d = decode_entries(e)->0;
    assert forall|k: int, j: int| 0 <= k < j < d.len() implies d[k].0 != d[j].0 by {
        lemma_action_named_sound(e[k].0);
        lemma_action_named_sound(e[j].0);
    }
    assert forall|a: ShortcutAction| #[trigger] json_override(text, a) == m.override_of(a) by {
        lemma_last_override_distinct(d, a);
        let x = action_serde_name(a);
        match m.override_of(a) {
            Some(b) => {
                let k = choose|k: int| 0 <= k < list.len() && list[k].0 == a;
                assert(m.override_of(list[k].0) == Some(list[k].1@));
                assert(n[k] == (x, list[k].1@));
                assert(pairs_map(n)[n[k].0] == n[k].1);
                assert(pairs_map(e).contains_key(x));
                let i = choose|i: int| 0 <= i < e.len() && e[i].0 == x;
                assert(pairs_map(e)[e[i].0] == e[i].1);
                assert(d[i] == (a, b));
                match last_override(d, a) {
                    Some(c) => {
                        let j = choose|j: int| 0 <= j < d.len() && d[j] == (a, c);
                        if j != i {
                            assert(d[j].0 == d[i].0);
                        }
                    },
                    None => {
                        assert(d[i].0 == a);
                    },
                }
            },
            None => {
                assert forall|i: int| 0 <= i < d.len() implies d[i].0 != a by {
                    if d[i].0 == a {
                        lemma_action_named_sound(e[i].0);
                        assert(e[i].0 == x);
                        assert(pairs_map(e).contains_key(x));
                        let k = choose|k: int| 0 <= k < n.len() && n[k].0 == x;
                        assert(action_named(n[k].0) == Some(list[k].0));
                        assert(m.override_of(list[k].0) == Some(list[k].1@));
                    }
                }
                if last_override(d, a) is Some {
                    let j = choose|j: int| 0 <= j < d.len() && d[j] == (a, last_override(d, a)->0);
                    assert(d[j].0 == a);
                }
            },
        }
    }
}

/// Once a prefix of the entries fails to decode, so do all of them.
proof fn lemma_decode_failure_extends(entries: Seq<(Seq<char>, Seq<char>)>, i: int)
    requires
        0 <= i <= entries.len(),
        decode_entries(entries.take(i)) is None,
    ensures
        decode_entries(entries) is None,
    decreases entries.len() - i,
{
    if i < entries.len() {
        assert(entries.take(i + 1).drop_last() =~= entries.take(i));
        lemma_decode_failure_extends(entries, i + 1);
    } else {
        assert(entries.take(i) =~= entries);
    }
}

impl ShortcutAction {
    /// The snake_case name under which the action is stored.
    pub fn serde_name(self) -> (r: &'static str)
        ensures
            r@ == action_serde_name(self),
    {
        match self {
            ShortcutAction::Done => "done",
            ShortcutAction::Pin => "pin",
            ShortcutAction::Snooze => "snooze",
            ShortcutAction::Search => "search",
            ShortcutAction::Compose => "compose",
            ShortcutAction::Refresh => "refresh",
            ShortcutAction::Next => "next",
            ShortcutAction::Previous => "previous",
            ShortcutAction::Open => "open",
            ShortcutAction::Undo => "undo",
            ShortcutAction::GoInbox => "go_inbox",
            ShortcutAction::GoSnoozed => "go_snoozed",
            ShortcutAction::GoDone => "go_done",
            ShortcutAction::Reply => "reply",
            ShortcutAction::ReplyAll => "reply_all",
            ShortcutAction::Forward => "forward",
            ShortcutAction::Help => "help",
            ShortcutAction::Escape => "escape",
        }
    }

    /// The action stored under a snake_case name, if any.
    pub fn from_serde_name(name: &str) -> (r: Option<ShortcutAction>)
        ensures
            r == action_named(name@),
    {
        if crate::text::str_eq(name, "done") {
            Some(ShortcutAction::Done)
        } else if crate::text::str_eq(name, "pin") {
            Some(ShortcutAction::Pin)
        } else if crate::text::str_eq(name, "snooze") {
            Some(ShortcutAction::Snooze)
        } else if crate::text::str_eq(name, "search") {
            Some(ShortcutAction::Search)
        } else if crate::text::str_eq(name, "compose") {
            Some(ShortcutAction::Compose)
        } else if crate::text::str_eq(name, "refresh") {
            Some(ShortcutAction::Refresh)
        } else if crate::text::str_eq(name, "next") {
            Some(ShortcutAction::Next)
        } else if crate::text::str_eq(name, "previous") {
            Some(ShortcutAction::Previous)
        } else if crate::text::str_eq(name, "open") {
            Some(ShortcutAction::Open)
        } else if crate::text::str_eq(name, "undo") {
            Some(ShortcutAction::Undo)
        } else if crate::text::str_eq(name, "go_inbox") {
            Some(ShortcutAction::GoInbox)
        } else if crate::text::str_eq(name, "go_snoozed") {
            Some(ShortcutAction::GoSnoozed)
        } else if crate::text::str_eq(name, "go_done") {
            Some(ShortcutAction::GoDone)
        } else if crate::text::str_eq(name, "reply") {
            Some(ShortcutAction::Reply)
        } else if crate::text::str_eq(name, "reply_all") {
            Some(ShortcutAction::ReplyAll)
        } else if crate::text::str_eq(name, "forward") {
            Some(ShortcutAction::Forward)
        } else if crate::text::str_eq(name, "help") {
            Some(ShortcutAction::Help)
        } else if crate::text::str_eq(name, "escape") {
            Some(ShortcutAction::Escape)
        } else {
            None
        }
    }
}

impl ShortcutMap {
    /// Serialise only the overrides as a JSON object from action name to
    /// binding; `{}` when there are none, and should writing fail.
    pub fn to_overrides_json(&self) -> (r: String)
        ensures
            is_overrides_json(*self, r@),
            (forall|a: ShortcutAction| #[trigger] self.override_of(a) is None) ==> r@ == "{}"@,
            forall|a: ShortcutAction| #[trigger] json_override(r@, a) == self.override_of(a),
    {
        let list = self.overrides();
        let mut named: Vec<(String, String)> = Vec::new();
        let mut i: usize = 0;
        while i < list.len()
            invariant
                i <= list@.len(),
                text_pairs(named@) == named_overrides(list@).take(i as int),
            decreases list@.len() - i,
        {
            let name = owned(list[i].0.serde_name());
            let binding = list[i].1.clone();
            let ghost before = named@;
            named.push((name, binding));
            proof {
                assert(named@ == before.push((name, binding)));
                assert(text_pairs(named@) =~= text_pairs(before).push((name@, binding@)));
                assert(named_overrides(list@).take(i + 1) =~= named_overrides(list@).take(i as int).push(
                    named_overrides(list@)[i as int],
                ));
                assert(named_overrides(list@)[i as int] == (action_serde_name(list@[i as int].0), list@[i as int].1@));
            }
            i = i + 1;
        }
        proof {
            assert(named_overrides(list@).take(list@.len() as int) =~= named_overrides(list@));
        }
        let r = match string_object_to_json(&named) {
            Some(s) => s,
            None => owned("{}"),
        };
        proof {
            assert(text_pairs(named@) == named_overrides(list@));
            lemma_written_overrides_read_back(*self, list@, r@);
            if forall|a: ShortcutAction| #[trigger] self.override_of(a) is None {
                if list@.len() > 0 {
                    assert(self.override_of(list@[0].0) == Some(list@[0].1@));
                }
            }
        }
        r
    }

    /// Load overrides from a JSON object of action names to bindings,
    /// merged over the defaults. Text that is not such an object, or that
    /// names an unknown action, gives the plain defaults.
    pub fn from_overrides_json(json: &str) -> (m: Self)
        ensures
            forall|a: ShortcutAction| #[trigger] m.override_of(a) == json_override(json@, a),
    {
        match parse_string_object(json) {
            None => Self::defaults(),
            Some(entries) => {
                let ghost e = text_pairs(entries@);
                let mut pairs: Vec<(ShortcutAction, String)> = Vec::new();
                let mut i: usize = 0;
                while i < entries.len()
                    invariant
                        i <= entries@.len(),
                        e == text_pairs(entries@),
                        json_string_object(json@) == Some(e),
                        decode_entries(e.take(i as int)) == Some(
                            pairs@.map_values(|p: (ShortcutAction, String)| (p.0, p.1@)),
                        ),
                    decreases entries@.len() - i,
                {
                    proof {
                        assert(e.take(i + 1).drop_last() =~= e.take(i as int));
                        assert(e.take(i + 1).last() == e[i as int]);
                    }
                    match ShortcutAction::from_serde_name(entries[i].0.as_str()) {
                        Some(a) => {
                            let binding = entries[i].1.clone();
                            let ghost before = pairs@;
                            pairs.push((a, binding));
                            proof {
                                assert(pairs@.map_values(|p: (ShortcutAction, String)| (p.0, p.1@))
                                    =~= before.map_values(|p: (ShortcutAction, String)| (p.0, p.1@)).push(
                                    (a, binding@),
                                ));
                            }
                        },
                        None => {
                            proof {
                                lemma_decode_failure_extends(e, i + 1);
                            }
                            return Self::defaults();
                        },
                    }
                    i = i + 1;
                }
                proof {
                    assert(e.take(entries@.len() as int) =~= e);
                }
                Self::from_overrides(pairs)
            },
        }
    }
}

} // verus!
