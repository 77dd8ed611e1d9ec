//! The ledger as a mathematical value, and each operation as a function from
//! the ledger before to the ledger after and the result.

use vstd::prelude::*;
use crate::access::{spec_authorize, Decision, Operation};
use crate::address::{inbox_key, message_key, proof_key, submission_key, KeyView};
use crate::context::{
    ActivateInbox, BurnMessage, CreateOrganization, CreateProof, DeactivateOrganization,
    SendDirectMessage, SubmitTip,
};
use crate::error::VoidError;
use crate::records::{
    DirectMessageView, InboxView, OrganizationView, ProofView, SubmissionView,
};
use crate::validate::{byte_len, spec_validate_arweave_hash};

verus! {

/// The records of every family, each family by key.
pub struct LedgerView {
    pub proofs: Map<KeyView, ProofView>,
    pub organizations: Map<KeyView, OrganizationView>,
    pub submissions: Map<KeyView, SubmissionView>,
    pub inboxes: Map<KeyView, InboxView>,
    pub messages: Map<KeyView, DirectMessageView>,
}

impl LedgerView {
    /// The ledger that holds nothing.
    pub open spec fn empty() -> LedgerView {
        LedgerView {
            proofs: Map::empty(),
            organizations: Map::empty(),
            submissions: Map::empty(),
            inboxes: Map::empty(),
            messages: Map::empty(),
        }
    }

    /// Every record lives at the key of its own identifying fields.
    pub open spec fn keyed(self) -> bool {
        &&& forall|k: KeyView| #[trigger]
            self.proofs.contains_key(k) ==> self.proofs[k].key() == k
        &&& forall|k: KeyView| #[trigger]
            self.organizations.contains_key(k) ==> self.organizations[k].key() == k
        &&& forall|k: KeyView| #[trigger]
            self.submissions.contains_key(k) ==> self.submissions[k].key() == k
        &&& forall|k: KeyView| #[trigger]
            self.inboxes.contains_key(k) ==> self.inboxes[k].key() == k
        &&& forall|k: KeyView| #[trigger]
            self.messages.contains_key(k) ==> self.messages[k].key() == k
    }

    /// Every text field keeps its bound.
    pub open spec fn bounded(self) -> bool {
        &&& forall|k: KeyView| #[trigger]
            self.organizations.contains_key(k) ==> self.organizations[k].valid()
        &&& forall|k: KeyView| #[trigger]
            self.submissions.contains_key(k) ==> byte_len(self.submissions[k].arweave_hash) <= 64
        &&& forall|k: KeyView| #[trigger]
            self.messages.contains_key(k) ==> byte_len(self.messages[k].arweave_hash) <= 64
    }

    /// The submissions to an organization are numbered 0, 1, 2, ... up to its
    /// counter, with no gap and nothing beyond; no submission is without its
    /// organization.
    pub open spec fn submissions_dense(self) -> bool {
        &&& forall|k: KeyView| #[trigger]
            self.submissions.contains_key(k) ==> {
                &&& self.organizations.contains_key(self.submissions[k].organization)
                &&& self.submissions[k].id
                    < self.organizations[self.submissions[k].organization].submission_count
            }
        &&& forall|k: KeyView, id: nat|
            self.organizations.contains_key(k) && id < self.organizations[k].submission_count
                ==> self.submissions.contains_key(#[trigger] submission_key(k, id))
    }

    /// The messages to an inbox are numbered 0, 1, 2, ... up to its counter,
    /// with no gap and nothing beyond; no message is without the inbox of its
    /// recipient.
    pub open spec fn messages_dense(self) -> bool {
        &&& forall|k: KeyView| #[trigger]
            self.messages.contains_key(k) ==> {
                &&& self.inboxes.contains_key(inbox_key(self.messages[k].recipient))
                &&& self.messages[k].id < self.inboxes[inbox_key(
                    self.messages[k].recipient,
                )].message_count
            }
        &&& forall|k: KeyView, id: nat|
            self.inboxes.contains_key(k) && id < self.inboxes[k].message_count
                ==> self.messages.contains_key(#[trigger] message_key(self.inboxes[k].owner, id))
    }

    /// What holds of every ledger that the operations can reach.
    pub open spec fn wf(self) -> bool {
        &&& self.keyed()
        &&& self.bounded()
        &&& self.submissions_dense()
        &&& self.messages_dense()
    }

    /// Registers `hash` for the caller, once.
    pub open spec fn create_proof(self, ctx: CreateProof, hash: Seq<u8>) -> (
        LedgerView,
        Result<(), VoidError>,
    ) {
        let key = proof_key(hash);
        if self.proofs.contains_key(key) {
            (self, Err(VoidError::AlreadyExists))
        } else {
            let proof = ProofView { hash, owner: ctx.owner@, timestamp: ctx.now, bump: ctx.bump };
            (LedgerView { proofs: self.proofs.insert(key, proof), ..self }, Ok(()))
        }
    }

    /// Opens an organization under `slug`, once. The fields are checked
    /// before the slug is looked up.
    pub open spec fn create_organization(
        self,
        ctx: CreateOrganization,
        slug: Seq<char>,
        name: Seq<char>,
        description: Seq<char>,
        encryption_key: Seq<u8>,
    ) -> (LedgerView, Result<(), VoidError>) {
        match OrganizationView::create(
            slug,
            name,
            description,
            encryption_key,
            ctx.admin@,
            ctx.now,
            ctx.bump,
        ) {
            Err(e) => (self, Err(e)),
            Ok(organization) => if self.organizations.contains_key(organization.key()) {
                (self, Err(VoidError::AlreadyExists))
            } else {
                (
                    LedgerView {
                        organizations: self.organizations.insert(organization.key(), organization),
                        ..self
                    },
                    Ok(()),
                )
            },
        }
    }

    /// Files a tip with an organization and returns its id. The submission
    /// and the new counter are written together or not at all.
    pub open spec fn submit_tip(self, ctx: SubmitTip, arweave_hash: Seq<char>) -> (
        LedgerView,
        Result<nat, VoidError>,
    ) {
        let key = ctx.organization@;
        match spec_validate_arweave_hash(arweave_hash) {
            Err(e) => (self, Err(e)),
            Ok(()) => if !self.organizations.contains_key(key) {
                (self, Err(VoidError::NotFound))
            } else {
                let organization = self.organizations[key];
                match organization.admit_tip(arweave_hash, ctx.submitter@, ctx.now, ctx.bump) {
                    Err(e) => (self, Err(e)),
                    Ok(submission) => (
                        LedgerView {
                            submissions: self.submissions.insert(submission.key(), submission),
                            organizations: self.organizations.insert(key, organization.advance()),
                            ..self
                        },
                        Ok(submission.id),
                    ),
                }
            },
        }
    }

    /// Stops an organization from taking tips. Only its admin may.
    pub open spec fn deactivate_organization(self, ctx: DeactivateOrganization) -> (
        LedgerView,
        Result<(), VoidError>,
    ) {
        let key = ctx.organization@;
        if !self.organizations.contains_key(key) {
            (self, Err(VoidError::NotFound))
        } else {
            let organization = self.organizations[key];
            match spec_authorize(
                Operation::DeactivateOrganization,
                ctx.admin@,
                organization.admin,
            ) {
                Decision::Denied(_) => (self, Err(VoidError::Denied)),
                Decision::Allowed => (
                    LedgerView {
                        organizations: self.organizations.insert(key, organization.deactivate()),
                        ..self
                    },
                    Ok(()),
                ),
            }
        }
    }

    /// Opens the inbox of the caller, once.
    pub open spec fn activate_inbox(self, ctx: ActivateInbox, encryption_key: Seq<u8>) -> (
        LedgerView,
        Result<(), VoidError>,
    ) {
        let inbox = InboxView::create(ctx.owner@, encryption_key, ctx.now, ctx.bump);
        if self.inboxes.contains_key(inbox.key()) {
            (self, Err(VoidError::AlreadyExists))
        } else {
            (LedgerView { inboxes: self.inboxes.insert(inbox.key(), inbox), ..self }, Ok(()))
        }
    }

    /// Files a message with an inbox and returns its id. The message and the
    /// new counter are written together or not at all.
    pub open spec fn send_direct_message(
        self,
        ctx: SendDirectMessage,
        arweave_hash: Seq<char>,
        burn_after_reading: bool,
    ) -> (LedgerView, Result<nat, VoidError>) {
        let key = ctx.recipient_inbox@;
        match spec_validate_arweave_hash(arweave_hash) {
            Err(e) => (self, Err(e)),
            Ok(()) => if !self.inboxes.contains_key(key) {
                (self, Err(VoidError::NotFound))
            } else {
                let inbox = self.inboxes[key];
                match inbox.admit_message(
                    ctx.sender@,
                    arweave_hash,
                    burn_after_reading,
                    ctx.now,
                    ctx.bump,
                ) {
                    Err(e) => (self, Err(e)),
                    Ok(message) => (
                        LedgerView {
                            messages: self.messages.insert(message.key(), message),
                            inboxes: self.inboxes.insert(key, inbox.advance()),
                            ..self
                        },
                        Ok(message.id),
                    ),
                }
            },
        }
    }

    /// Burns a message. Only its recipient may, and only once.
    pub open spec fn burn_message(self, ctx: BurnMessage) -> (LedgerView, Result<(), VoidError>) {
        let key = ctx.message@;
        if !self.messages.contains_key(key) {
            (self, Err(VoidError::NotFound))
        } else {
            let message = self.messages[key];
            match spec_authorize(Operation::BurnMessage, ctx.recipient@, message.recipient) {
                Decision::Denied(_) => (self, Err(VoidError::Denied)),
                Decision::Allowed => match message.burn() {
                    Err(e) => (self, Err(e)),
                    Ok(burned) => (
                        LedgerView { messages: self.messages.insert(key, burned), ..self },
                        Ok(()),
                    ),
                },
            }
        }
    }
}

/// One call of `submit_tip`: its context and the pointer it brings.
pub struct Tip {
    pub ctx: SubmitTip,
    pub arweave_hash: Seq<char>,
}

impl LedgerView {
    /// The ledger after the tips were submitted one after the other.
    pub open spec fn submit_tips(self, tips: Seq<Tip>) -> LedgerView
        decreases tips.len(),
    {
        if tips.len() == 0 {
            self
        } else {
            self.submit_tips(tips.drop_last()).submit_tip(
                tips.last().ctx,
                tips.last().arweave_hash,
            ).0
        }
    }

    /// What call number `i` of the run returns.
    pub open spec fn tip_result(self, tips: Seq<Tip>, i: int) -> Result<nat, VoidError> {
        self.submit_tips(tips.take(i)).submit_tip(tips[i].ctx, tips[i].arweave_hash).1
    }
}

impl LedgerView {
    /// `later` is a ledger that this one can turn into. No record is gone. A
    /// proof and a submission are as they were. An organization is as it was
    /// but for its counter, which is no lower, and its activity, which is not
    /// regained. An inbox is as it was but for its counter, which is no lower.
    /// A message is as it was but for its burning, which is not undone.
    pub open spec fn precedes(self, later: LedgerView) -> bool {
        &&& forall|k: KeyView| #[trigger]
            self.proofs.contains_key(k) ==> later.proofs.contains_key(k) && later.proofs[k]
                == self.proofs[k]
        &&& forall|k: KeyView| #[trigger]
            self.submissions.contains_key(k) ==> later.submissions.contains_key(k)
                && later.submissions[k] == self.submissions[k]
        &&& forall|k: KeyView| #[trigger]
            self.organizations.contains_key(k) ==> {
                &&& later.organizations.contains_key(k)
                &&& later.organizations[k] == OrganizationView {
                    submission_count: later.organizations[k].submission_count,
                    active: later.organizations[k].active,
                    ..self.organizations[k]
                }
                &&& self.organizations[k].submission_count
                    <= later.organizations[k].submission_count
                &&& later.organizations[k].active ==> self.organizations[k].active
            }
        &&& forall|k: KeyView| #[trigger]
            self.inboxes.contains_key(k) ==> {
                &&& later.inboxes.contains_key(k)
                &&& later.inboxes[k] == InboxView {
                    message_count: later.inboxes[k].message_count,
                    ..self.inboxes[k]
                }
                &&& self.inboxes[k].message_count <= later.inboxes[k].message_count
            }
        &&& forall|k: KeyView| #[trigger]
            self.messages.contains_key(k) ==> {
                &&& later.messages.contains_key(k)
                &&& later.messages[k] == DirectMessageView {
                    burned: later.messages[k].burned,
                    ..self.messages[k]
                }
                &&& self.messages[k].burned ==> later.messages[k].burned
            }
    }
}

/// One call of an operation, with all it is given.
pub enum Call {
    CreateProof { ctx: CreateProof, hash: Seq<u8> },
    CreateOrganization {
        ctx: CreateOrganization,
        slug: Seq<char>,
        name: Seq<char>,
        description: Seq<char>,
        encryption_key: Seq<u8>,
    },
    SubmitTip { ctx: SubmitTip, arweave_hash: Seq<char> },
    DeactivateOrganization { ctx: DeactivateOrganization },
    ActivateInbox { ctx: ActivateInbox, encryption_key: Seq<u8> },
    SendDirectMessage { ctx: SendDirectMessage, arweave_hash: Seq<char>, burn_after_reading: bool },
    BurnMessage { ctx: BurnMessage },
}

impl LedgerView {
    /// The ledger after one call, whether the call succeeds or fails.
    pub open spec fn apply(self, call: Call) -> LedgerView {
        match call {
            Call::CreateProof { ctx, hash } => self.create_proof(ctx, hash).0,
            Call::CreateOrganization { ctx, slug, name, description, encryption_key } => {
                self.create_organization(ctx, slug, name, description, encryption_key).0
            },
            Call::SubmitTip { ctx, arweave_hash } => self.submit_tip(ctx, arweave_hash).0,
            Call::DeactivateOrganization { ctx } => self.deactivate_organization(ctx).0,
            Call::ActivateInbox { ctx, encryption_key } => self.activate_inbox(
                ctx,
                encryption_key,
            ).0,
            Call::SendDirectMessage { ctx, arweave_hash, burn_after_reading } => {
                self.send_direct_message(ctx, arweave_hash, burn_after_reading).0
            },
            Call::BurnMessage { ctx } => self.burn_message(ctx).0,
        }
    }

    /// The ledger after the calls were made one after the other.
    pub open spec fn run(self, calls: Seq<Call>) -> LedgerView
        decreases calls.len(),
    {
        if calls.len() == 0 {
            self
        } else {
            self.run(calls.drop_last()).apply(calls.last())
        }
    }
}

} // verus!
