//! Saving the open draft: what the auto-save timer and an explicit save
//! come to for the current state.

use vstd::prelude::*;

use crate::account_id::{AccountId, account_id_from_email, compose_account_namespace_spec, uuid_v5};
use crate::app::Inboxly;
use crate::compose::{ComposeSendState, DraftEmail, compose_state_to_draft_email, draft_of};
use crate::config::AccountConfig;
use crate::text::{owned, push_str};

verus! {

/// What saving the open draft comes to.
pub enum DraftSave {
    /// Nothing to do.
    Skip,
    /// Nothing to write (the sending account is gone); answer with
    /// `ComposeAutoSaveTick { generation }` so the dirty flag can clear.
    TickOnly { generation: u64 },
    /// Write the draft to the store, then answer with
    /// `ComposeAutoSaveTick { generation }`.
    Save { draft: DraftEmail, generation: u64 },
}

/// A send in flight or finished owns the draft; saving must not race it.
pub open spec fn send_owns_draft(s: Inboxly) -> bool {
    s.compose.send_state is Sending || s.compose.send_state is Sent
}

/// `a` saves the draft of `s` (which has a draft id) for its sending
/// account, stamped with the current save generation; with no such
/// account there is nothing to write.
pub open spec fn save_for(s: Inboxly, a: DraftSave) -> bool {
    let i = s.compose.from_account_index;
    let g = s.compose.save_generation;
    if i < s.accounts@.len() {
        a matches DraftSave::Save { draft, generation } && generation == g && exists|id: AccountId|
            id.0@ == uuid_v5(compose_account_namespace_spec(), s.accounts@[i as int].email@)
                && #[trigger] draft_of(s.compose, id, s.compose.draft_id->0@, draft)
    } else {
        a matches DraftSave::TickOnly { generation } && generation == g
    }
}

impl Inboxly {
    /// The save for the state's draft, which has an id.
    fn draft_save(&self) -> (a: DraftSave)
        requires
            self.compose.draft_id is Some,
        ensures
            save_for(*self, a),
    {
        let i = self.compose.from_account_index;
        let generation = self.compose.save_generation;
        if i < self.accounts.len() {
            let id = account_id_from_email(self.accounts[i].email.as_str());
            match compose_state_to_draft_email(&self.compose, id) {
                Some(draft) => DraftSave::Save { draft, generation },
                None => DraftSave::TickOnly { generation },
            }
        } else {
            DraftSave::TickOnly { generation }
        }
    }

    /// What the auto-save timer does when it fires: nothing while a send
    /// owns the draft, when there is no draft, or when nothing is unsaved;
    /// otherwise save the draft for its sending account.
    pub fn auto_save_action(&self) -> (a: DraftSave)
        ensures
            send_owns_draft(*self) || !self.compose.dirty || self.compose.draft_id is None ==> a is Skip,
            !send_owns_draft(*self) && self.compose.dirty && self.compose.draft_id is Some ==> save_for(
                *self,
                a,
            ),
    {
        let owned_by_send = match self.compose.send_state {
            ComposeSendState::Sending => true,
            ComposeSendState::Sent { .. } => true,
            _ => false,
        };
        if owned_by_send || !self.compose.dirty || self.compose.draft_id.is_none() {
            DraftSave::Skip
        } else {
            self.draft_save()
        }
    }

    /// What an explicit save (the Save Draft button, or leaving a dirty
    /// compose view) does: nothing while a send owns the draft or when
    /// there is no draft; otherwise save the draft for its sending account.
    pub fn explicit_save_action(&self) -> (a: DraftSave)
        ensures
            send_owns_draft(*self) || self.compose.draft_id is None ==> a is Skip,
            !send_owns_draft(*self) && self.compose.draft_id is Some ==> save_for(*self, a),
    {
        let owned_by_send = match self.compose.send_state {
            ComposeSendState::Sending => true,
            ComposeSendState::Sent { .. } => true,
            _ => false,
        };
        if owned_by_send || self.compose.draft_id.is_none() {
            DraftSave::Skip
        } else {
            self.draft_save()
        }
    }
}

/// Sending starts from the sending account and the draft snapshot for it;
/// without an account, or without a draft id, it ends at once with the
/// error shown to the user.
pub open spec fn send_plan_for(s: Inboxly, r: Result<(AccountConfig, DraftEmail), String>) -> bool {
    let i = s.compose.from_account_index;
    if i >= s.accounts@.len() {
        r matches Err(e) && e@ == "no account configured for this draft"@
    } else if s.compose.draft_id is None {
        r matches Err(e) && e@ == "compose has no draft_id (OpenCompose did not run)"@
    } else {
        r matches Ok((account, draft)) && account == s.accounts@[i as int] && exists|id: AccountId|
            id.0@ == uuid_v5(compose_account_namespace_spec(), s.accounts@[i as int].email@)
                && #[trigger] draft_of(s.compose, id, s.compose.draft_id->0@, draft)
    }
}

impl Inboxly {
    /// What sending the open draft starts from.
    pub fn send_plan(&self) -> (r: Result<(AccountConfig, DraftEmail), String>)
        ensures
            send_plan_for(*self, r),
    {
        let i = self.compose.from_account_index;
        if i >= self.accounts.len() {
            return Err(owned("no account configured for this draft"));
        }
        let account = self.accounts[i].clone();
        let id = account_id_from_email(self.accounts[i].email.as_str());
        match compose_state_to_draft_email(&self.compose, id) {
            Some(draft) => {
                assert(draft_of(self.compose, id, self.compose.draft_id->0@, draft));
                Ok((account, draft))
            },
            None => Err(owned("compose has no draft_id (OpenCompose did not run)")),
        }
    }
}

/// Why the credentials for sending could not be had.
pub enum CredentialProblem {
    /// No password is stored for the account.
    NoPassword,
    /// The keyring lookup failed with this error text.
    KeyringFailed(String),
    /// No OAuth2 refresh token is registered for the account.
    NoOAuth2Token,
}

/// The message shown when sending stops for want of credentials.
pub open spec fn credential_message(p: CredentialProblem, email: Seq<char>) -> Seq<char> {
    match p {
        CredentialProblem::NoPassword => "no password stored for "@ + email + "; run `inboxly set-password "@
            + email + "` first"@,
        CredentialProblem::KeyringFailed(e) => "keyring lookup failed for "@ + email + ": "@ + e@,
        CredentialProblem::NoOAuth2Token => "no OAuth2 refresh token registered for "@ + email
            + "; run `inboxly oauth2-authorize "@ + email + "` first"@,
    }
}

/// The message shown when sending stops for want of credentials.
pub fn credential_error(problem: &CredentialProblem, email: &str) -> (r: String)
    ensures
        r@ == credential_message(*problem, email@),
{
    match problem {
        CredentialProblem::NoPassword => {
            let mut m = owned("no password stored for ");
            push_str(&mut m, email);
            push_str(&mut m, "; run `inboxly set-password ");
            push_str(&mut m, email);
            push_str(&mut m, "` first");
            m
        },
        CredentialProblem::KeyringFailed(e) => {
            let mut m = owned("keyring lookup failed for ");
            push_str(&mut m, email);
            push_str(&mut m, ": ");
            push_str(&mut m, e.as_str());
            m
        },
        CredentialProblem::NoOAuth2Token => {
            let mut m = owned("no OAuth2 refresh token registered for ");
            push_str(&mut m, email);
            push_str(&mut m, "; run `inboxly oauth2-authorize ");
            push_str(&mut m, email);
            push_str(&mut m, "` first");
            m
        },
    }
}

} // verus!
