# inboxly_ui

The user-interface state of Inboxly, a desktop email client in the style of
Inbox by Google, written in Verus: every function in `src/` carries a
contract that Verus proves.

## Layout

- `src/app/` — the application state machine. `Inboxly::update` takes a
  `Message` and returns the `Effect`s the program must perform; `step`
  states what each message does. `laws.rs` proves properties that span
  messages (menus stay exclusive, undo reverts, settings round trip, …).
- `src/feed.rs` — grouping inbox threads into date sections, newest first.
- `src/keyboard.rs`, `src/shortcut_json.rs` — remappable shortcuts and
  their delta-only JSON form.
- `src/undo.rs`, `src/snooze.rs`, `src/search.rs`, `src/compose.rs`,
  `src/recipients.rs` — timed undo, snooze times, query parsing, the
  compose draft and recipient validation.
- `src/theme/`, `src/settings.rs`, `src/nav.rs`, `src/config.rs`,
  `src/state.rs` — design tokens and the settings, navigation and account
  form state.
- `src/sanitize.rs` — HTML sanitising of email bodies with `ammonia`.
- `app/` — the program around the library: the effect loop, D-Bus theme
  detection, opening URLs, file-system measurements, and the types that
  carry `serde` and `thiserror` derives.

Outside crates (`ammonia`, `chrono`, `serde_json`, `url`, `uuid`) are called
from `src/` through small trusted wrappers whose contracts name what the
crate computes.
