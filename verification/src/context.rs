//! What each operation is told besides its arguments: the records it works
//! on, named up front by their keys; the identity of the caller, as the
//! authentication layer established it; the time; and, where a record is
//! created, the bump seed of its address on chain, as `locate` finds it. The
//! ledger stores the bump seed as it is given.

use vstd::prelude::*;
use vstd::utf8::encode_utf8;
use crate::address::{
    inbox_key, locate, message_key, organization_key, proof_key, spec_location, submission_key,
    Key,
};
use crate::identity::Identity;

verus! {

/// Context of `create_proof`.
#[derive(Clone, Copy, Debug, PartialEq, Eq)]
pub struct CreateProof {
    /// Who registers the hash.
    pub owner: Identity,
    /// Bump seed of the address of the proof.
    pub bump: u8,
    /// Unix time of the call.
    pub now: i64,
}

/// Context of `create_organization`.
#[derive(Clone, Copy, Debug, PartialEq, Eq)]
pub struct CreateOrganization {
    /// Who will control the organization.
    pub admin: Identity,
    /// Bump seed of the address of the organization.
    pub bump: u8,
    /// Unix time of the call.
    pub now: i64,
}

/// Context of `submit_tip`.
#[derive(Debug, PartialEq, Eq)]
pub struct SubmitTip {
    /// The organization the tip goes to.
    pub organization: Key,
    /// Who submits. It may be a throwaway identity.
    pub submitter: Identity,
    /// Bump seed of the address of the submission.
    pub bump: u8,
    /// Unix time of the call.
    pub now: i64,
}

/// Context of `deactivate_organization`.
#[derive(Debug, PartialEq, Eq)]
pub struct DeactivateOrganization {
    /// The organization to deactivate.
    pub organization: Key,
    /// The caller, who has to be the admin of the organization.
    pub admin: Identity,
}

/// Context of `activate_inbox`.
#[derive(Clone, Copy, Debug, PartialEq, Eq)]
pub struct ActivateInbox {
    /// Who opens an inbox for themself.
    pub owner: Identity,
    /// Bump seed of the address of the inbox.
    pub bump: u8,
    /// Unix time of the call.
    pub now: i64,
}

/// Context of `send_direct_message`.
#[derive(Debug, PartialEq, Eq)]
pub struct SendDirectMessage {
    /// The inbox the message goes to.
    pub recipient_inbox: Key,
    /// Who sends.
    pub sender: Identity,
    /// Bump seed of the address of the message.
    pub bump: u8,
    /// Unix time of the call.
    pub now: i64,
}

/// Context of `burn_message`.
#[derive(Debug, PartialEq, Eq)]
pub struct BurnMessage {
    /// The message to burn.
    pub message: Key,
    /// The caller, who has to be the recipient of the message.
    pub recipient: Identity,
}

impl Clone for SubmitTip {
    fn clone(&self) -> (c: SubmitTip)
        ensures
            c.organization@ == self.organization@,
            c.submitter == self.submitter,
            c.bump == self.bump,
            c.now == self.now,
    {
        SubmitTip {
            organization: self.organization.clone(),
            submitter: self.submitter,
            bump: self.bump,
            now: self.now,
        }
    }
}

impl Clone for DeactivateOrganization {
    fn clone(&self) -> (c: DeactivateOrganization)
        ensures
            c.organization@ == self.organization@,
            c.admin == self.admin,
    {
        DeactivateOrganization { organization: self.organization.clone(), admin: self.admin }
    }
}

impl Clone for SendDirectMessage {
    fn clone(&self) -> (c: SendDirectMessage)
        ensures
            c.recipient_inbox@ == self.recipient_inbox@,
            c.sender == self.sender,
            c.bump == self.bump,
            c.now == self.now,
    {
        SendDirectMessage {
            recipient_inbox: self.recipient_inbox.clone(),
            sender: self.sender,
            bump: self.bump,
            now: self.now,
        }
    }
}

impl Clone for BurnMessage {
    fn clone(&self) -> (c: BurnMessage)
        ensures
            c.message@ == self.message@,
            c.recipient == self.recipient,
    {
        BurnMessage { message: self.message.clone(), recipient: self.recipient }
    }
}

impl CreateProof {
    /// The context of a call by `owner` at `now` that registers `hash` with
    /// the program `program_id`: it carries the bump seed of the address of
    /// the proof. There is none where the proof has no address.
    pub fn located(program_id: &[u8; 32], owner: Identity, now: i64, hash: &[u8; 32]) -> (r:
        Option<CreateProof>)
        ensures
            match r {
                Some(ctx) => {
                    &&& spec_location(proof_key(hash@), program_id@) matches Some((_, bump))
                    &&& ctx.bump == bump
                    &&& ctx.owner == owner
                    &&& ctx.now == now
                },
                None => spec_location(proof_key(hash@), program_id@) is None,
            },
    {
        match locate(&Key::for_proof(hash), program_id) {
            Some(location) => Some(CreateProof { owner, bump: location.bump, now }),
            None => None,
        }
    }
}

impl CreateOrganization {
    /// The context of a call by `admin` at `now` that opens an organization
    /// under `slug` with the program `program_id`: it carries the bump seed
    /// of the address of the organization. There is none where the
    /// organization has no address, as with a slug too long for a seed.
    pub fn located(program_id: &[u8; 32], admin: Identity, now: i64, slug: &str) -> (r: Option<
        CreateOrganization,
    >)
        ensures
            match r {
                Some(ctx) => {
                    &&& spec_location(organization_key(encode_utf8(slug@)), program_id@) matches Some(
                        (_, bump),
                    )
                    &&& ctx.bump == bump
                    &&& ctx.admin == admin
                    &&& ctx.now == now
                },
                None => spec_location(organization_key(encode_utf8(slug@)), program_id@) is None,
            },
    {
        match locate(&Key::for_organization(slug), program_id) {
            Some(location) => Some(CreateOrganization { admin, bump: location.bump, now }),
            None => None,
        }
    }
}

impl SubmitTip {
    /// The context of a call by `submitter` at `now` that files a tip with
    /// `organization`, whose counter stands at `count`, with the program
    /// `program_id`: it carries the bump seed of the address of the
    /// submission. There is none where the submission has no address.
    pub fn located(
        program_id: &[u8; 32],
        organization: &Key,
        count: u64,
        submitter: Identity,
        now: i64,
    ) -> (r: Option<SubmitTip>)
        ensures
            match r {
                Some(ctx) => {
                    &&& spec_location(
                        submission_key(organization@, count as nat),
                        program_id@,
                    ) matches Some((_, bump))
                    &&& ctx.bump == bump
                    &&& ctx.organization@ == organization@
                    &&& ctx.submitter == submitter
                    &&& ctx.now == now
                },
                None => spec_location(submission_key(organization@, count as nat), program_id@)
                    is None,
            },
    {
        match locate(&Key::for_submission(organization, count), program_id) {
            Some(location) => Some(
                SubmitTip {
                    organization: organization.clone(),
                    submitter,
                    bump: location.bump,
                    now,
                },
            ),
            None => None,
        }
    }
}

impl ActivateInbox {
    /// The context of a call by `owner` at `now` that opens the inbox of the
    /// owner with the program `program_id`: it carries the bump seed of the
    /// address of the inbox. There is none where the inbox has no address.
    pub fn located(program_id: &[u8; 32], owner: Identity, now: i64) -> (r: Option<ActivateInbox>)
        ensures
            match r {
                Some(ctx) => {
                    &&& spec_location(inbox_key(owner@), program_id@) matches Some((_, bump))
                    &&& ctx.bump == bump
                    &&& ctx.owner == owner
                    &&& ctx.now == now
                },
                None => spec_location(inbox_key(owner@), program_id@) is None,
            },
    {
        match locate(&Key::for_inbox(&owner), program_id) {
            Some(location) => Some(ActivateInbox { owner, bump: location.bump, now }),
            None => None,
        }
    }
}

impl SendDirectMessage {
    /// The context of a call by `sender` at `now` that files a message with
    /// the inbox of `recipient`, whose counter stands at `count`, with the
    /// program `program_id`: it carries the bump seed of the address of the
    /// message. There is none where the message has no address.
    pub fn located(
        program_id: &[u8; 32],
        recipient: &Identity,
        count: u64,
        sender: Identity,
        now: i64,
    ) -> (r: Option<SendDirectMessage>)
        ensures
            match r {
                Some(ctx) => {
                    &&& spec_location(message_key(recipient@, count as nat), program_id@) matches Some(
                        (_, bump),
                    )
                    &&& ctx.bump == bump
                    &&& ctx.recipient_inbox@ == inbox_key(recipient@)
                    &&& ctx.sender == sender
                    &&& ctx.now == now
                },
                None => spec_location(message_key(recipient@, count as nat), program_id@) is None,
            },
    {
        match locate(&Key::for_message(recipient, count), program_id) {
            Some(location) => Some(
                SendDirectMessage {
                    recipient_inbox: Key::for_inbox(recipient),
                    sender,
                    bump: location.bump,
                    now,
                },
            ),
            None => None,
        }
    }
}

} // verus!
