//! Properties of the state machine that span messages.

use vstd::prelude::*;

use crate::app::MoveDestination;
use crate::app::{
    EffectView, Inboxly, Message, feed_has_bundle, pruned, sending, step,
};
use crate::compose::law_can_send;
use crate::config::{BundleRow, account_form_valid};
use crate::text::is_ws;
use crate::lists::{
    filter_texts, has_text, insert_row, lemma_filter_texts, rows_ascending, sort_rows, without_text,
};
use crate::settings::SettingsTab;
use crate::theme::ActiveView;

verus! {

/// At most one of the two thread menus is open.
pub open spec fn menus_exclusive(s: Inboxly) -> bool {
    !(s.menus.overflow_thread is Some && s.menus.context_thread is Some)
}

/// Every message keeps the overflow and context menus from being open at
/// the same time.
pub proof fn law_menus_exclusive(pre: Inboxly, msg: Message, post: Inboxly, fv: Seq<EffectView>)
    requires
        menus_exclusive(pre),
        step(pre, msg, post, fv),
    ensures
        menus_exclusive(post),
{
    reveal(crate::app::preset_post);
    reveal(crate::app::thread_action_post);
    match msg {
        Message::Navigate(..) => {
            reveal(crate::app::navigate_post);
        },
        Message::ToggleDrawer => {
            reveal(crate::app::toggle_drawer_post);
        },
        Message::SearchChanged(..) => {
            reveal(crate::app::search_changed_post);
        },
        Message::ThemeToggled => {
            reveal(crate::app::theme_toggled_post);
        },
        Message::ThemeChanged(..) => {
            reveal(crate::app::theme_changed_post);
        },
        Message::ReloadFeed => {
            reveal(crate::app::reload_feed_post);
        },
        Message::FeedLoaded(..) => {
            reveal(crate::app::feed_loaded_post);
        },
        Message::MarkDone(..) => {
            reveal(crate::app::mark_done_post);
        },
        Message::TogglePin { .. } => {
            reveal(crate::app::toggle_pin_post);
        },
        Message::Sweep => {
            reveal(crate::app::sweep_post);
        },
        Message::SweepCandidatesLoaded(..) => {
            reveal(crate::app::sweep_candidates_loaded_post);
        },
        Message::SweepCompleted(..) => {
            reveal(crate::app::sweep_completed_post);
        },
        Message::Undo => {
            reveal(crate::app::undo_post);
        },
        Message::UndoExpired => {
            reveal(crate::app::undo_expired_post);
        },
        Message::SnoozeThread { .. } => {
            reveal(crate::app::snooze_thread_post);
        },
        Message::OpenOverflowMenu { .. } => {
            reveal(crate::app::open_overflow_menu_post);
        },
        Message::CloseOverflowMenu => {
            reveal(crate::app::close_overflow_menu_post);
        },
        Message::OpenContextMenu { .. } => {
            reveal(crate::app::open_context_menu_post);
        },
        Message::CloseContextMenu => {
            reveal(crate::app::close_context_menu_post);
        },
        Message::OpenThread(..) => {
            reveal(crate::app::open_thread_post);
        },
        Message::CloseThread => {
            reveal(crate::app::close_thread_post);
        },
        Message::OpenExternalUrl(..) => {
            reveal(crate::app::open_external_url_post);
        },
        Message::ToggleAccountSwitcher => {
            reveal(crate::app::toggle_account_switcher_post);
        },
        Message::SwitchAccount(..) => {
            reveal(crate::app::switch_account_post);
        },
        Message::NavigateToSettings => {
            reveal(crate::app::navigate_to_settings_post);
        },
        Message::SettingsLoaded(..) => {
            reveal(crate::app::settings_loaded_post);
        },
        Message::ConfigLoaded(..) => {
            reveal(crate::app::config_loaded_post);
        },
        Message::NavigateBack => {
            reveal(crate::app::navigate_back_post);
        },
        Message::SettingsTabChanged(..) => {
            reveal(crate::app::settings_tab_changed_post);
        },
        Message::SetThemePreference(..) => {
            reveal(crate::app::set_theme_preference_post);
        },
        Message::SetDefaultView(..) => {
            reveal(crate::app::set_default_view_post);
        },
        Message::SetUndoTimeout(..) => {
            reveal(crate::app::set_undo_timeout_post);
        },
        Message::SetSnoozeMorningHour(..) => {
            reveal(crate::app::set_snooze_morning_hour_post);
        },
        Message::SetSnoozeAfternoonHour(..) => {
            reveal(crate::app::set_snooze_afternoon_hour_post);
        },
        Message::SetSnoozeEveningHour(..) => {
            reveal(crate::app::set_snooze_evening_hour_post);
        },
        Message::SetSnoozeWeekendDay(..) => {
            reveal(crate::app::set_snooze_weekend_day_post);
        },
        Message::AddAccountStart => {
            reveal(crate::app::add_account_start_post);
        },
        Message::EditAccountStart(..) => {
            reveal(crate::app::edit_account_start_post);
        },
        Message::AccountFormCancel => {
            reveal(crate::app::account_form_cancel_post);
        },
        Message::AccountFormSave => {
            reveal(crate::app::account_form_save_post);
        },
        Message::AccountFormEmailChanged(..) => {
            reveal(crate::app::account_form_email_changed_post);
        },
        Message::AccountFormDisplayNameChanged(..) => {
            reveal(crate::app::account_form_display_name_changed_post);
        },
        Message::AccountFormProviderChanged(..) => {
            reveal(crate::app::account_form_provider_changed_post);
        },
        Message::AccountFormAuthMethodChanged(..) => {
            reveal(crate::app::account_form_auth_method_changed_post);
        },
        Message::AccountFormImapHostChanged(..) => {
            reveal(crate::app::account_form_imap_host_changed_post);
        },
        Message::AccountFormImapPortChanged(..) => {
            reveal(crate::app::account_form_imap_port_changed_post);
        },
        Message::AccountFormSmtpHostChanged(..) => {
            reveal(crate::app::account_form_smtp_host_changed_post);
        },
        Message::AccountFormSmtpPortChanged(..) => {
            reveal(crate::app::account_form_smtp_port_changed_post);
        },
        Message::RemoveAccountConfirm(..) => {
            reveal(crate::app::remove_account_confirm_post);
        },
        Message::RemoveAccountCancel => {
            reveal(crate::app::remove_account_cancel_post);
        },
        Message::RemoveAccountExecute(..) => {
            reveal(crate::app::remove_account_execute_post);
        },
        Message::ClearCache => {
            reveal(crate::app::clear_cache_post);
        },
        Message::CacheCleared(..) => {
            reveal(crate::app::cache_cleared_post);
        },
        Message::RebuildSearchIndex => {
            reveal(crate::app::rebuild_search_index_post);
        },
        Message::ExportData => {
            reveal(crate::app::export_data_post);
        },
        Message::DataSizesLoaded { .. } => {
            reveal(crate::app::data_sizes_loaded_post);
        },
        Message::StorageMeasured { .. } => {
            reveal(crate::app::storage_measured_post);
        },
        Message::ShortcutsLoaded(..) => {
            reveal(crate::app::shortcuts_loaded_post);
        },
        Message::SetShortcut { .. } => {
            reveal(crate::app::set_shortcut_post);
        },
        Message::ResetShortcut(..) => {
            reveal(crate::app::reset_shortcut_post);
        },
        Message::StartCapture(..) => {
            reveal(crate::app::start_capture_post);
        },
        Message::CancelCapture => {
            reveal(crate::app::cancel_capture_post);
        },
        Message::ToggleNotifications => {
            reveal(crate::app::toggle_notifications_post);
        },
        Message::ToggleNotificationSound => {
            reveal(crate::app::toggle_notification_sound_post);
        },
        Message::SetNotificationBundles(..) => {
            reveal(crate::app::set_notification_bundles_post);
        },
        Message::BundlesLoaded(..) => {
            reveal(crate::app::bundles_loaded_post);
        },
        Message::ToggleBundleVisibility(..) => {
            reveal(crate::app::toggle_bundle_visibility_post);
        },
        Message::SetBundleThrottle { .. } => {
            reveal(crate::app::set_bundle_throttle_post);
        },
        Message::ReorderBundles(..) => {
            reveal(crate::app::reorder_bundles_post);
        },
        Message::ToggleThrottlePopup(..) => {
            reveal(crate::app::toggle_throttle_popup_post);
        },
        Message::MoveTo { .. } => {
            reveal(crate::app::move_to_post);
        },
        Message::MarkReadState { .. } => {
            reveal(crate::app::mark_read_state_post);
        },
        Message::MuteThread(..) => {
            reveal(crate::app::mute_thread_post);
        },
        Message::Reply(..) => {
            reveal(crate::app::reply_post);
        },
        Message::ReplyAll(..) => {
            reveal(crate::app::reply_all_post);
        },
        Message::Forward(..) => {
            reveal(crate::app::forward_post);
        },
        Message::AddToBundle { .. } => {
            reveal(crate::app::add_to_bundle_post);
        },
        Message::CreateRuleFromSender(..) => {
            reveal(crate::app::create_rule_from_sender_post);
        },
        Message::BlockSender { .. } => {
            reveal(crate::app::block_sender_post);
        },
        Message::ReportSpam(..) => {
            reveal(crate::app::report_spam_post);
        },
        Message::ToggleBundleExpand(..) => {
            reveal(crate::app::toggle_bundle_expand_post);
        },
        Message::OpenSnoozePicker { .. } => {
            reveal(crate::app::open_snooze_picker_post);
        },
        Message::CloseSnoozePicker => {
            reveal(crate::app::close_snooze_picker_post);
        },
        Message::OpenCompose => {
            reveal(crate::app::open_compose_post);
        },
        Message::OpenComposeReply { .. } => {
            reveal(crate::app::open_compose_reply_post);
        },
        Message::CloseCompose => {
            reveal(crate::app::close_compose_post);
        },
        Message::ComposeSubjectChanged(..) => {
            reveal(crate::app::compose_subject_changed_post);
        },
        Message::ComposeToInputChanged(..) => {
            reveal(crate::app::compose_to_input_changed_post);
        },
        Message::ComposeCcInputChanged(..) => {
            reveal(crate::app::compose_cc_input_changed_post);
        },
        Message::ComposeBccInputChanged(..) => {
            reveal(crate::app::compose_bcc_input_changed_post);
        },
        Message::ComposeAddRecipient { .. } => {
            reveal(crate::app::compose_add_recipient_post);
        },
        Message::ComposeRemoveRecipient { .. } => {
            reveal(crate::app::compose_remove_recipient_post);
        },
        Message::ComposeBodyChanged(..) => {
            reveal(crate::app::compose_body_changed_post);
        },
        Message::ComposeToggleCcBcc => {
            reveal(crate::app::compose_toggle_cc_bcc_post);
        },
        Message::ComposeTogglePreview => {
            reveal(crate::app::compose_toggle_preview_post);
        },
        Message::ComposeFromChanged { .. } => {
            reveal(crate::app::compose_from_changed_post);
        },
        Message::ComposeAttachFile => {
            reveal(crate::app::compose_attach_file_post);
        },
        Message::ComposeAttachmentAdded(..) => {
            reveal(crate::app::compose_attachment_added_post);
        },
        Message::ComposeAttachmentTooLarge => {
            reveal(crate::app::compose_attachment_too_large_post);
        },
        Message::ComposeRemoveAttachment(..) => {
            reveal(crate::app::compose_remove_attachment_post);
        },
        Message::ComposeSaveDraft => {
            reveal(crate::app::compose_save_draft_post);
        },
        Message::ComposeAutoSaveTick { .. } => {
            reveal(crate::app::compose_auto_save_tick_post);
        },
        Message::ComposeSendDraft => {
            reveal(crate::app::compose_send_draft_post);
        },
        Message::ComposeSendComplete { .. } => {
            reveal(crate::app::compose_send_complete_post);
        },
        Message::ComposeDismissSentNotice => {
            reveal(crate::app::compose_dismiss_sent_notice_post);
        },
        Message::ComposeDiscardDraft => {
            reveal(crate::app::compose_discard_draft_post);
        },
    }
}

/// Entering Settings and going back returns to the view and drawer state
/// from before Settings; entering it again while there keeps both.
pub proof fn law_settings_round_trip(
    s0: Inboxly,
    s1: Inboxly,
    s2: Inboxly,
    f1: Seq<EffectView>,
    f2: Seq<EffectView>,
)
    requires
        step(s0, Message::NavigateToSettings, s1, f1),
        step(s1, Message::NavigateBack, s2, f2),
    ensures
        s2.active_view == if s0.active_view == ActiveView::Settings {
            s0.previous_view
        } else {
            s0.active_view
        },
        s2.drawer_open == if s0.active_view == ActiveView::Settings {
            s0.settings.drawer_was_open
        } else {
            s0.drawer_open
        },
        s0.active_view == ActiveView::Settings ==> s1.previous_view == s0.previous_view,
        s1.settings.tab == SettingsTab::General,
{
    reveal(crate::app::navigate_to_settings_post);
    reveal(crate::app::navigate_back_post);
}

/// The compose field edits.
pub open spec fn is_compose_edit(msg: Message) -> bool {
    ||| msg is ComposeSubjectChanged
    ||| msg is ComposeToInputChanged
    ||| msg is ComposeCcInputChanged
    ||| msg is ComposeBccInputChanged
    ||| msg is ComposeAddRecipient
    ||| msg is ComposeRemoveRecipient
    ||| msg is ComposeBodyChanged
    ||| msg is ComposeFromChanged
    ||| msg is ComposeAttachmentAdded
    ||| msg is ComposeRemoveAttachment
}

/// While a send is in flight no compose edit changes anything.
pub proof fn law_sending_freezes_compose(pre: Inboxly, msg: Message, post: Inboxly, fv: Seq<EffectView>)
    requires
        sending(pre.compose),
        is_compose_edit(msg),
        step(pre, msg, post, fv),
    ensures
        post == pre,
        fv.len() == 0,
{
    match msg {
        Message::ComposeSubjectChanged(..) => {
            reveal(crate::app::compose_subject_changed_post);
        },
        Message::ComposeToInputChanged(..) => {
            reveal(crate::app::compose_to_input_changed_post);
        },
        Message::ComposeCcInputChanged(..) => {
            reveal(crate::app::compose_cc_input_changed_post);
        },
        Message::ComposeBccInputChanged(..) => {
            reveal(crate::app::compose_bcc_input_changed_post);
        },
        Message::ComposeAddRecipient { .. } => {
            reveal(crate::app::compose_add_recipient_post);
        },
        Message::ComposeRemoveRecipient { .. } => {
            reveal(crate::app::compose_remove_recipient_post);
        },
        Message::ComposeBodyChanged(..) => {
            reveal(crate::app::compose_body_changed_post);
        },
        Message::ComposeFromChanged { .. } => {
            reveal(crate::app::compose_from_changed_post);
        },
        Message::ComposeAttachmentAdded(..) => {
            reveal(crate::app::compose_attachment_added_post);
        },
        Message::ComposeRemoveAttachment(..) => {
            reveal(crate::app::compose_remove_attachment_post);
        },
        _ => {},
    }
}

/// An auto-save that finishes after the draft was edited again (its
/// generation is stale) leaves the draft dirty; one whose generation is
/// current marks it clean.
pub proof fn law_autosave_generation(
    s0: Inboxly,
    subject: String,
    s1: Inboxly,
    s2: Inboxly,
    s3: Inboxly,
    f1: Seq<EffectView>,
    f2: Seq<EffectView>,
    f3: Seq<EffectView>,
)
    requires
        !sending(s0.compose),
        step(s0, Message::ComposeSubjectChanged(subject), s1, f1),
        step(s1, Message::ComposeAutoSaveTick { generation: s0.compose.save_generation }, s2, f2),
        step(s1, Message::ComposeAutoSaveTick { generation: s1.compose.save_generation }, s3, f3),
    ensures
        s1.compose.dirty,
        s2.compose.dirty,
        !s3.compose.dirty,
{
    reveal(crate::app::compose_subject_changed_post);
    reveal(crate::app::compose_auto_save_tick_post);
    let g = s0.compose.save_generation;
    assert(g.wrapping_add(1) != g) by (bit_vector);
}

/// Removing an account never removes the active one, and keeps the same
/// account active when another one is removed.
pub proof fn law_active_account_kept(pre: Inboxly, index: usize, post: Inboxly, fv: Seq<EffectView>)
    requires
        step(pre, Message::RemoveAccountExecute(index), post, fv),
        pre.active_account_index < pre.config.accounts@.len(),
    ensures
        post.active_account_index < post.config.accounts@.len(),
        post.config.accounts@[post.active_account_index as int]
            == pre.config.accounts@[pre.active_account_index as int],
        index == pre.active_account_index ==> post.config.accounts@ == pre.config.accounts@,
{
    reveal(crate::app::remove_account_execute_post);
}

/// Inserting into an ascending list keeps it ascending and adds one row.
pub proof fn lemma_insert_row(t: Seq<BundleRow>, x: BundleRow)
    requires
        rows_ascending(t),
    ensures
        rows_ascending(insert_row(t, x)),
        insert_row(t, x).len() == t.len() + 1,
        insert_row(t, x).last().sort_order == if t.len() > 0 && t.last().sort_order
            > x.sort_order {
            t.last().sort_order
        } else {
            x.sort_order
        },
    decreases t.len(),
{
    if t.len() == 0 {
        assert(insert_row(t, x) == seq![x]);
    } else if t.last().sort_order <= x.sort_order {
        assert(insert_row(t, x) == t.push(x));
    } else {
        let d = t.drop_last();
        assert(rows_ascending(d));
        lemma_insert_row(d, x);
        let r = insert_row(d, x);
        let q = r.push(t.last());
        assert(insert_row(t, x) == q);
        assert forall|i: int, j: int| 0 <= i < j < q.len() implies q[i].sort_order
            <= q[j].sort_order by {
            if j == r.len() && i < r.len() {
                assert(r.last().sort_order <= t.last().sort_order) by {
                    if d.len() > 0 {
                        assert(d.last() == t[t.len() - 2]);
                    }
                }
                if i < r.len() - 1 {
                    assert(r[i].sort_order <= r[r.len() - 1].sort_order);
                }
            }
        }
    }
}

/// The stable sort by sort order gives an ascending list.
pub proof fn lemma_sort_rows(s: Seq<BundleRow>)
    ensures
        rows_ascending(sort_rows(s)),
        sort_rows(s).len() == s.len(),
    decreases s.len(),
{
    if s.len() > 0 {
        let d = s.drop_last();
        lemma_sort_rows(d);
        lemma_insert_row(sort_rows(d), s.last());
    }
}

/// Reordering bundles leaves them in ascending sort order.
pub proof fn law_reorder_sorted(pre: Inboxly, ids: Vec<String>, post: Inboxly, fv: Seq<EffectView>)
    requires
        step(pre, Message::ReorderBundles(ids), post, fv),
    ensures
        rows_ascending(post.settings.bundles@),
{
    reveal(crate::app::reorder_bundles_post);
    lemma_sort_rows(crate::app::assign_orders(pre.settings.bundles@, ids@));
}

/// Toggling a bundle's expansion flips whether that bundle is expanded and
/// leaves every other bundle as it was.
pub proof fn law_bundle_expand_toggles(pre: Inboxly, id: String, post: Inboxly, fv: Seq<EffectView>)
    requires
        step(pre, Message::ToggleBundleExpand(id), post, fv),
    ensures
        has_text(post.expanded_bundles@, id@) == !has_text(pre.expanded_bundles@, id@),
        forall|x: Seq<char>|
            x != id@ ==> has_text(post.expanded_bundles@, x) == has_text(pre.expanded_bundles@, x),
{
    reveal(crate::app::toggle_bundle_expand_post);
    let e = pre.expanded_bundles@;
    let keep = |s: Seq<char>| s != id@;
    lemma_filter_texts(e, keep);
    if has_text(e, id@) {
        let f = without_text(e, id@);
        assert forall|x: Seq<char>| has_text(f, x) implies x != id@ && has_text(e, x) by {
            let i = choose|i: int| 0 <= i < f.len() && #[trigger] f[i]@ == x;
            assert(keep(f[i]@));
            let k = choose|k: int| 0 <= k < e.len() && e[k] == #[trigger] f[i];
            assert(e[k]@ == x);
        }
        assert forall|x: Seq<char>| x != id@ && has_text(e, x) implies has_text(f, x) by {
            let k = choose|k: int| 0 <= k < e.len() && #[trigger] e[k]@ == x;
            assert(keep(e[k]@));
        }
    } else {
        let p = e.push(id);
        assert(p[e.len() as int]@ == id@);
        assert forall|x: Seq<char>| x != id@ implies has_text(p, x) == has_text(e, x) by {
            if has_text(p, x) {
                let k = choose|k: int| 0 <= k < p.len() && #[trigger] p[k]@ == x;
                assert(e[k]@ == x);
            }
            if has_text(e, x) {
                let k = choose|k: int| 0 <= k < e.len() && #[trigger] e[k]@ == x;
                assert(p[k]@ == x);
            }
        }
    }
}

/// After the feed loads, every expanded bundle is a bundle of the feed.
pub proof fn law_expanded_in_feed(pre: Inboxly, res: Option<Vec<crate::feed::FeedSection>>, post: Inboxly, fv: Seq<EffectView>)
    requires
        step(pre, Message::FeedLoaded(res), post, fv),
    ensures
        forall|i: int|
            0 <= i < post.expanded_bundles@.len() ==> feed_has_bundle(
                post.feed_sections@,
                #[trigger] post.expanded_bundles@[i]@,
            ),
{
    reveal(crate::app::feed_loaded_post);
    let keep = |s: Seq<char>| feed_has_bundle(post.feed_sections@, s);
    lemma_filter_texts(pre.expanded_bundles@, keep);
}

/// Undoing a fresh mark-done reverts the store write it made: the first
/// effect of the undo, if any, clears the done flag the mark-done set.
pub proof fn law_undo_reverts_mark_done(
    s0: Inboxly,
    tid: String,
    s1: Inboxly,
    s2: Inboxly,
    f1: Seq<EffectView>,
    f2: Seq<EffectView>,
)
    requires
        s0.store_attached,
        step(s0, Message::MarkDone(tid), s1, f1),
        step(s1, Message::Undo, s2, f2),
    ensures
        f1[0] == (EffectView::SetThreadDone { thread_id: tid@, done: true }),
        f2.len() > 0 ==> f2[0] == (EffectView::SetThreadDone { thread_id: tid@, done: false }),
{
    reveal(crate::app::mark_done_post);
    reveal(crate::app::undo_post);
    assert(f1.subrange(0, 2)[0] == f1[0]);
    if f2.len() > 0 {
        let u = crate::undo::UndoAction::MarkDone { thread_id: tid };
        assert(crate::app::undo_effects(u).len() == 1);
        assert(f2.subrange(0, 1)[0] == f2[0]);
    }
}

/// Undoing a fresh pin toggle writes back the pin state from before it.
pub proof fn law_undo_reverts_pin(
    s0: Inboxly,
    tid: String,
    was_pinned: bool,
    s1: Inboxly,
    s2: Inboxly,
    f1: Seq<EffectView>,
    f2: Seq<EffectView>,
)
    requires
        s0.store_attached,
        step(s0, Message::TogglePin { thread_id: tid, was_pinned }, s1, f1),
        step(s1, Message::Undo, s2, f2),
    ensures
        f1[0] == (EffectView::SetThreadPinned { thread_id: tid@, pinned: !was_pinned }),
        f2.len() > 0 ==> f2[0] == (EffectView::SetThreadPinned { thread_id: tid@, pinned: was_pinned }),
{
    reveal(crate::app::toggle_pin_post);
    reveal(crate::app::undo_post);
    assert(f1.subrange(0, 1)[0] == f1[0]);
    if f2.len() > 0 {
        assert(f2.subrange(0, 1)[0] == f2[0]);
    }
}

/// Marking a thread read or unread from its menu queues, with a store
/// attached, exactly one action, for that thread, and it marks the thread
/// read when `read` is set and unread when it is not; without a store
/// nothing is queued.
pub proof fn law_mark_read_state(pre: Inboxly, thread_id: String, read: bool, post: Inboxly, fv: Seq<EffectView>)
    requires
        step(pre, Message::MarkReadState { thread_id, read }, post, fv),
    ensures
        pre.store_attached ==> fv.len() == 1 && (fv[0] matches EffectView::EnqueueThreadActions {
            thread_id: t,
            action: a,
        } && t == thread_id@ && (a is MarkRead <==> read) && (a is MarkUnread <==> !read)),
        !pre.store_attached ==> fv.len() == 0,
{
    reveal(crate::app::mark_read_state_post);
    reveal(crate::app::thread_action_post);
}

/// Send starts only from a draft at rest: while a send is under way,
/// finished or failed, `ComposeSendDraft` changes nothing; from `Idle`, a
/// draft with a To recipient and a subject holding a non-whitespace
/// character moves to `Sending`.
pub proof fn law_send_only_from_idle(pre: Inboxly, post: Inboxly, fv: Seq<EffectView>)
    requires
        step(pre, Message::ComposeSendDraft, post, fv),
    ensures
        !(pre.compose.send_state is Idle) ==> post == pre && fv.len() == 0,
        post.compose.send_state is Sending && !(pre.compose.send_state is Sending) ==> pre.compose.send_state is Idle,
        (pre.compose.send_state is Idle && pre.compose.to@.len() > 0 && exists|i: int|
            0 <= i < pre.compose.subject@.len() && !is_ws(#[trigger] pre.compose.subject@[i])) ==> post.compose.send_state
            is Sending,
{
    reveal(crate::app::compose_send_draft_post);
    law_can_send(pre.compose);
}

/// Moving a thread queues, with a store attached, one action for that
/// thread: to the `INBOX` folder for the inbox, to the `Spam` folder for
/// spam, and to the trash for trash; without a store nothing is queued.
pub proof fn law_move_to(pre: Inboxly, thread_id: String, destination: MoveDestination, post: Inboxly, fv: Seq<EffectView>)
    requires
        step(pre, Message::MoveTo { thread_id, destination }, post, fv),
    ensures
        pre.store_attached ==> fv.len() == 1 && (fv[0] matches EffectView::EnqueueThreadActions {
            thread_id: t,
            action: a,
        } && t == thread_id@ && match destination {
            MoveDestination::Inbox => a matches crate::app::ThreadActionView::MoveToFolder { to_folder: f } && f
                == "INBOX"@,
            MoveDestination::Spam => a matches crate::app::ThreadActionView::MoveToFolder { to_folder: f } && f
                == "Spam"@,
            MoveDestination::Trash => a is MoveToTrash,
        }),
        !pre.store_attached ==> fv.len() == 0,
{
    reveal(crate::app::move_to_post);
    reveal(crate::app::thread_action_post);
}

/// Reporting spam queues, with a store attached, one move of that thread
/// to the `Spam` folder; without a store nothing is queued.
pub proof fn law_report_spam(pre: Inboxly, tid: String, post: Inboxly, fv: Seq<EffectView>)
    requires
        step(pre, Message::ReportSpam(tid), post, fv),
    ensures
        pre.store_attached ==> fv.len() == 1 && (fv[0] matches EffectView::EnqueueThreadActions {
            thread_id: t,
            action: crate::app::ThreadActionView::MoveToFolder { to_folder: f },
        } && t == tid@ && f == "Spam"@),
        !pre.store_attached ==> fv.len() == 0,
{
    reveal(crate::app::report_spam_post);
    reveal(crate::app::thread_action_post);
}

/// Snoozing a thread first writes, with a store attached, that thread's
/// snooze until the chosen time.
pub proof fn law_snooze_thread(pre: Inboxly, tid: String, until: i64, post: Inboxly, fv: Seq<EffectView>)
    requires
        pre.store_attached,
        step(pre, Message::SnoozeThread { thread_id: tid, until }, post, fv),
    ensures
        fv.len() >= 1,
        fv[0] == (EffectView::SetThreadSnoozed { thread_id: tid@, until }),
{
    reveal(crate::app::snooze_thread_post);
    assert(fv.subrange(0, 1)[0] == fv[0]);
}

} // verus!
