//! The inbox view's messages and the entries of its thread menus: the
//! overflow (three-dot) menu and the right-click context menu.

use vstd::prelude::*;

use crate::app::MoveDestination;
use crate::text::owned;

verus! {

/// Messages from the inbox view.
#[derive(Debug, Clone)]
pub enum InboxViewMessage {
    /// A bundle row was clicked to expand or collapse it.
    ToggleBundle(String),
    /// Hover action: Done (archive).
    HoverDone(String),
    /// Hover action: Pin / unpin.
    HoverPin(String),
    /// Hover action: Snooze.
    HoverSnooze(String),
    /// Open the overflow (three-dot) menu of a thread.
    OpenOverflow(String),
    /// Close the overflow menu.
    CloseOverflow,
    /// Open the context menu of a thread.
    OpenContextMenu { thread_id: String },
    /// Close the context menu.
    CloseContextMenu,
    /// Move a thread to a folder.
    MoveTo { thread_id: String, destination: MoveDestination },
    /// Mark a thread read or unread.
    MarkReadState { thread_id: String, read: bool },
    /// Mute a thread.
    MuteThread(String),
    /// Reply to a thread.
    ReplyThread(String),
    /// Reply all to a thread.
    ReplyAllThread(String),
    /// Forward a thread.
    ForwardThread(String),
    /// Add a thread to a bundle category.
    AddToBundle { thread_id: String, category: String },
    /// Create a rule from a sender.
    CreateRuleFromSender(String),
    /// Block a thread's sender.
    BlockSender { thread_id: String, sender_address: String },
    /// Report a thread as spam.
    ReportSpam(String),
}

/// A message with its texts as plain values.
pub enum MessageView {
    ToggleBundle(Seq<char>),
    HoverDone(Seq<char>),
    HoverPin(Seq<char>),
    HoverSnooze(Seq<char>),
    OpenOverflow(Seq<char>),
    CloseOverflow,
    OpenContextMenu { thread_id: Seq<char> },
    CloseContextMenu,
    MoveTo { thread_id: Seq<char>, destination: MoveDestination },
    MarkReadState { thread_id: Seq<char>, read: bool },
    MuteThread(Seq<char>),
    ReplyThread(Seq<char>),
    ReplyAllThread(Seq<char>),
    ForwardThread(Seq<char>),
    AddToBundle { thread_id: Seq<char>, category: Seq<char> },
    CreateRuleFromSender(Seq<char>),
    BlockSender { thread_id: Seq<char>, sender_address: Seq<char> },
    ReportSpam(Seq<char>),
}

impl View for InboxViewMessage {
    type V = MessageView;

    open spec fn view(&self) -> MessageView {
        match self {
            InboxViewMessage::ToggleBundle(s) => MessageView::ToggleBundle(s@),
            InboxViewMessage::HoverDone(s) => MessageView::HoverDone(s@),
            InboxViewMessage::HoverPin(s) => MessageView::HoverPin(s@),
            InboxViewMessage::HoverSnooze(s) => MessageView::HoverSnooze(s@),
            InboxViewMessage::OpenOverflow(s) => MessageView::OpenOverflow(s@),
            InboxViewMessage::CloseOverflow => MessageView::CloseOverflow,
            InboxViewMessage::OpenContextMenu { thread_id } => MessageView::OpenContextMenu {
                thread_id: thread_id@,
            },
            InboxViewMessage::CloseContextMenu => MessageView::CloseContextMenu,
            InboxViewMessage::MoveTo { thread_id, destination } => MessageView::MoveTo {
                thread_id: thread_id@,
                destination: *destination,
            },
            InboxViewMessage::MarkReadState { thread_id, read } => MessageView::MarkReadState {
                thread_id: thread_id@,
                read: *read,
            },
            InboxViewMessage::MuteThread(s) => MessageView::MuteThread(s@),
            InboxViewMessage::ReplyThread(s) => MessageView::ReplyThread(s@),
            InboxViewMessage::ReplyAllThread(s) => MessageView::ReplyAllThread(s@),
            InboxViewMessage::ForwardThread(s) => MessageView::ForwardThread(s@),
            InboxViewMessage::AddToBundle { thread_id, category } => MessageView::AddToBundle {
                thread_id: thread_id@,
                category: category@,
            },
            InboxViewMessage::CreateRuleFromSender(s) => MessageView::CreateRuleFromSender(s@),
            InboxViewMessage::BlockSender { thread_id, sender_address } => MessageView::BlockSender {
                thread_id: thread_id@,
                sender_address: sender_address@,
            },
            InboxViewMessage::ReportSpam(s) => MessageView::ReportSpam(s@),
        }
    }
}

/// A menu action: its label, optional icon, the message it sends, and
/// whether it is shown as destructive.
#[derive(Debug, Clone)]
pub struct MenuAction {
    pub label: String,
    pub icon: Option<char>,
    pub message: InboxViewMessage,
    pub destructive: bool,
}

/// A menu action as plain values.
pub struct ActionView {
    pub label: Seq<char>,
    pub icon: Option<char>,
    pub message: MessageView,
    pub destructive: bool,
}

impl View for MenuAction {
    type V = ActionView;

    open spec fn view(&self) -> ActionView {
        ActionView {
            label: self.label@,
            icon: self.icon,
            message: self.message@,
            destructive: self.destructive,
        }
    }
}

/// An entry of a thread menu.
#[derive(Debug, Clone)]
pub enum MenuEntry {
    /// An action.
    Action(MenuAction),
    /// A divider between groups.
    Separator,
    /// A submenu of actions.
    Submenu { label: String, icon: Option<char>, items: Vec<MenuAction> },
}

/// A menu entry as plain values.
pub enum EntryView {
    Action(ActionView),
    Separator,
    Submenu { label: Seq<char>, icon: Option<char>, items: Seq<ActionView> },
}

/// The actions as plain values.
pub open spec fn actions_view(v: Seq<MenuAction>) -> Seq<ActionView> {
    v.map_values(|a: MenuAction| a@)
}

impl View for MenuEntry {
    type V = EntryView;

    open spec fn view(&self) -> EntryView {
        match self {
            MenuEntry::Action(a) => EntryView::Action(a@),
            MenuEntry::Separator => EntryView::Separator,
            MenuEntry::Submenu { label, icon, items } => EntryView::Submenu {
                label: label@,
                icon: *icon,
                items: actions_view(items@),
            },
        }
    }
}

/// The entries as plain values.
pub open spec fn entries_view(v: Seq<MenuEntry>) -> Seq<EntryView> {
    v.map_values(|e: MenuEntry| e@)
}

/// An action with an icon.
pub open spec fn icon_action(label: Seq<char>, icon: char, message: MessageView) -> ActionView {
    ActionView { label, icon: Some(icon), message, destructive: false }
}

/// The "Add to bundle" actions: one per category, labelled with it.
pub open spec fn bundle_actions(tid: Seq<char>, cats: Seq<Seq<char>>) -> Seq<ActionView> {
    cats.map_values(
        |c: Seq<char>|
            ActionView {
                label: c,
                icon: None,
                message: MessageView::AddToBundle { thread_id: tid, category: c },
                destructive: false,
            },
    )
}

/// The overflow menu of a thread: move, mark read/unread and mute; reply,
/// reply all and forward; add to a bundle and create a rule from the
/// sender; then the destructive block and report-spam actions.
pub open spec fn overflow_items_spec(tid: Seq<char>, sender: Seq<char>, is_unread: bool, cats: Seq<Seq<char>>) -> Seq<EntryView> {
    seq![
        EntryView::Submenu {
            label: "Move to\u{2026}"@,
            icon: Some('\u{1F4C1}'),
            items: seq![
                icon_action("Inbox"@, '\u{1F4E5}', MessageView::MoveTo { thread_id: tid, destination: MoveDestination::Inbox }),
                icon_action("Trash"@, '\u{1F5D1}', MessageView::MoveTo { thread_id: tid, destination: MoveDestination::Trash }),
                icon_action("Spam"@, '\u{26A0}', MessageView::MoveTo { thread_id: tid, destination: MoveDestination::Spam }),
            ],
        },
        EntryView::Action(icon_action(
            if is_unread { "Mark as read"@ } else { "Mark as unread"@ },
            '\u{2709}',
            MessageView::MarkReadState { thread_id: tid, read: is_unread },
        )),
        EntryView::Action(icon_action("Mute thread"@, '\u{1F507}', MessageView::MuteThread(tid))),
        EntryView::Separator,
        EntryView::Action(icon_action("Reply"@, '\u{21A9}', MessageView::ReplyThread(tid))),
        EntryView::Action(icon_action("Reply All"@, '\u{21AA}', MessageView::ReplyAllThread(tid))),
        EntryView::Action(icon_action("Forward"@, '\u{2192}', MessageView::ForwardThread(tid))),
        EntryView::Separator,
        EntryView::Submenu {
            label: "Add to bundle\u{2026}"@,
            icon: Some('\u{1F3F7}'),
            items: bundle_actions(tid, cats),
        },
        EntryView::Action(icon_action("Create rule from sender"@, '\u{2699}', MessageView::CreateRuleFromSender(sender))),
        EntryView::Separator,
        EntryView::Action(ActionView {
            label: "Block sender"@,
            icon: Some('\u{1F6AB}'),
            message: MessageView::BlockSender { thread_id: tid, sender_address: sender },
            destructive: true,
        }),
        EntryView::Action(ActionView {
            label: "Report spam"@,
            icon: Some('\u{26A0}'),
            message: MessageView::ReportSpam(tid),
            destructive: true,
        }),
    ]
}

/// The context menu of a thread: the quick Done, Pin and Snooze actions,
/// a divider, then the overflow menu.
pub open spec fn context_items_spec(tid: Seq<char>, sender: Seq<char>, is_unread: bool, cats: Seq<Seq<char>>) -> Seq<EntryView> {
    seq![
        EntryView::Action(icon_action("Done"@, '\u{2713}', MessageView::HoverDone(tid))),
        EntryView::Action(icon_action("Pin"@, '\u{1F4CC}', MessageView::HoverPin(tid))),
        EntryView::Action(icon_action("Snooze"@, '\u{1F552}', MessageView::HoverSnooze(tid))),
        EntryView::Separator,
    ] + overflow_items_spec(tid, sender, is_unread, cats)
}

/// The texts of a list of strings.
pub open spec fn category_texts(v: Seq<String>) -> Seq<Seq<char>> {
    v.map_values(|s: String| s@)
}

fn icon_item(label: &str, icon: char, message: InboxViewMessage) -> (r: MenuAction)
    ensures
        r@ == icon_action(label@, icon, message@),
{
    MenuAction { label: owned(label), icon: Some(icon), message, destructive: false }
}

fn icon_entry(label: &str, icon: char, message: InboxViewMessage) -> (r: MenuEntry)
    ensures
        r@ == EntryView::Action(icon_action(label@, icon, message@)),
{
    MenuEntry::Action(icon_item(label, icon, message))
}

/// The "Add to bundle" actions for the categories.
fn bundle_items(thread_id: &str, bundle_categories: &Vec<String>) -> (r: Vec<MenuAction>)
    ensures
        actions_view(r@) == bundle_actions(thread_id@, category_texts(bundle_categories@)),
{
    let ghost cats = category_texts(bundle_categories@);
    let mut items: Vec<MenuAction> = Vec::new();
    let mut i: usize = 0;
    while i < bundle_categories.len()
        invariant
            i <= bundle_categories@.len(),
            cats == category_texts(bundle_categories@),
            actions_view(items@) == bundle_actions(thread_id@, cats.take(i as int)),
        decreases bundle_categories@.len() - i,
    {
        let c = bundle_categories[i].as_str();
        let item = MenuAction {
            label: owned(c),
            icon: None,
            message: InboxViewMessage::AddToBundle { thread_id: owned(thread_id), category: owned(c) },
            destructive: false,
        };
        let ghost before = items@;
        items.push(item);
        proof {
            assert(actions_view(items@) =~= actions_view(before).push(item@));
            assert(cats.take(i + 1) =~= cats.take(i as int).push(cats[i as int]));
            assert(bundle_actions(thread_id@, cats.take(i + 1)) =~= bundle_actions(thread_id@, cats.take(i as int)).push(
                bundle_actions(thread_id@, cats.take(i + 1))[i as int],
            ));
        }
        i = i + 1;
    }
    proof {
        assert(cats.take(bundle_categories@.len() as int) =~= cats);
    }
    items
}

/// Build the overflow menu entries of a thread.
pub fn build_overflow_items(
    thread_id: &str,
    sender_address: &str,
    is_unread: bool,
    bundle_categories: &Vec<String>,
) -> (r: Vec<MenuEntry>)
    ensures
        entries_view(r@) == overflow_items_spec(
            thread_id@,
            sender_address@,
            is_unread,
            category_texts(bundle_categories@),
        ),
{
    let mut moves: Vec<MenuAction> = Vec::new();
    moves.push(icon_item("Inbox", '\u{1F4E5}', InboxViewMessage::MoveTo { thread_id: owned(thread_id), destination: MoveDestination::Inbox }));
    moves.push(icon_item("Trash", '\u{1F5D1}', InboxViewMessage::MoveTo { thread_id: owned(thread_id), destination: MoveDestination::Trash }));
    moves.push(icon_item("Spam", '\u{26A0}', InboxViewMessage::MoveTo { thread_id: owned(thread_id), destination: MoveDestination::Spam }));
    proof {
        let tid = thread_id@;
        assert(actions_view(moves@) =~= seq![
            icon_action("Inbox"@, '\u{1F4E5}', MessageView::MoveTo { thread_id: tid, destination: MoveDestination::Inbox }),
            icon_action("Trash"@, '\u{1F5D1}', MessageView::MoveTo { thread_id: tid, destination: MoveDestination::Trash }),
            icon_action("Spam"@, '\u{26A0}', MessageView::MoveTo { thread_id: tid, destination: MoveDestination::Spam }),
        ]);
    }
    let mut items: Vec<MenuEntry> = Vec::new();
    items.push(MenuEntry::Submenu { label: owned("Move to\u{2026}"), icon: Some('\u{1F4C1}'), items: moves });
    let mark_label = if is_unread {
        "Mark as read"
    } else {
        "Mark as unread"
    };
    items.push(icon_entry(mark_label, '\u{2709}', InboxViewMessage::MarkReadState { thread_id: owned(thread_id), read: is_unread }));
    items.push(icon_entry("Mute thread", '\u{1F507}', InboxViewMessage::MuteThread(owned(thread_id))));
    items.push(MenuEntry::Separator);
    items.push(icon_entry("Reply", '\u{21A9}', InboxViewMessage::ReplyThread(owned(thread_id))));
    items.push(icon_entry("Reply All", '\u{21AA}', InboxViewMessage::ReplyAllThread(owned(thread_id))));
    items.push(icon_entry("Forward", '\u{2192}', InboxViewMessage::ForwardThread(owned(thread_id))));
    items.push(MenuEntry::Separator);
    let bundles = bundle_items(thread_id, bundle_categories);
    items.push(MenuEntry::Submenu { label: owned("Add to bundle\u{2026}"), icon: Some('\u{1F3F7}'), items: bundles });
    items.push(icon_entry("Create rule from sender", '\u{2699}', InboxViewMessage::CreateRuleFromSender(owned(sender_address))));
    items.push(MenuEntry::Separator);
    items.push(MenuEntry::Action(MenuAction {
        label: owned("Block sender"),
        icon: Some('\u{1F6AB}'),
        message: InboxViewMessage::BlockSender { thread_id: owned(thread_id), sender_address: owned(sender_address) },
        destructive: true,
    }));
    items.push(MenuEntry::Action(MenuAction {
        label: owned("Report spam"),
        icon: Some('\u{26A0}'),
        message: InboxViewMessage::ReportSpam(owned(thread_id)),
        destructive: true,
    }));
    proof {
        assert(entries_view(items@) =~= overflow_items_spec(
            thread_id@,
            sender_address@,
            is_unread,
            category_texts(bundle_categories@),
        ));
    }
    items
}

/// Build the context menu entries of a thread: the quick actions, then the
/// overflow menu.
pub fn build_context_items(
    thread_id: &str,
    sender_address: &str,
    is_unread: bool,
    bundle_categories: &Vec<String>,
) -> (r: Vec<MenuEntry>)
    ensures
        entries_view(r@) == context_items_spec(
            thread_id@,
            sender_address@,
            is_unread,
            category_texts(bundle_categories@),
        ),
{
    let mut items: Vec<MenuEntry> = Vec::new();
    items.push(icon_entry("Done", '\u{2713}', InboxViewMessage::HoverDone(owned(thread_id))));
    items.push(icon_entry("Pin", '\u{1F4CC}', InboxViewMessage::HoverPin(owned(thread_id))));
    items.push(icon_entry("Snooze", '\u{1F552}', InboxViewMessage::HoverSnooze(owned(thread_id))));
    items.push(MenuEntry::Separator);
    let ghost head = entries_view(items@);
    let mut rest = build_overflow_items(thread_id, sender_address, is_unread, bundle_categories);
    let ghost tail = entries_view(rest@);
    let ghost before = items@;
    items.append(&mut rest);
    proof {
        assert(entries_view(items@) =~= head + tail);
        assert(entries_view(items@) =~= context_items_spec(
            thread_id@,
            sender_address@,
            is_unread,
            category_texts(bundle_categories@),
        ));
    }
    items
}

} // verus!
