//! The ledger engine: the operations over the record store.
//!
//! An operation checks its inputs, finds the key of the record it works on,
//! creates or changes the record there, and where a child is created moves
//! the counter of the parent in the same step. Whenever it fails, the ledger
//! is as it was before.

use vstd::prelude::*;
use vstd::utf8::encode_utf8;
use crate::access::{authorize, Decision, Operation};
use crate::address::{inbox_key, organization_key, proof_key, Key, KeyView};
use crate::context::{
    ActivateInbox, BurnMessage, CreateOrganization, CreateProof, DeactivateOrganization,
    SendDirectMessage, SubmitTip,
};
use crate::error::VoidError;
use crate::laws::{
    lemma_activate_inbox_step, lemma_burn_message_step, lemma_create_organization_step,
    lemma_create_proof_step, lemma_deactivate_organization_step, lemma_send_direct_message_step,
    lemma_submit_tip_step,
};
use crate::model::LedgerView;
use crate::records::{DirectMessage, Inbox, Organization, Proof, Submission};
use crate::store::Table;
use crate::validate::{byte_len, spec_validate_organization, validate_arweave_hash};

verus! {

/// The record store: one table for each family of records.
pub struct Ledger {
    proofs: Table<Proof>,
    organizations: Table<Organization>,
    submissions: Table<Submission>,
    inboxes: Table<Inbox>,
    messages: Table<DirectMessage>,
}

impl View for Ledger {
    type V = LedgerView;

    closed spec fn view(&self) -> LedgerView {
        LedgerView {
            proofs: self.proofs@,
            organizations: self.organizations@,
            submissions: self.submissions@,
            inboxes: self.inboxes@,
            messages: self.messages@,
        }
    }
}

impl Ledger {
    /// The tables are sound, the ledger is well formed as a mathematical
    /// value, and no counter is ahead of the number of children stored.
    pub closed spec fn wf(&self) -> bool {
        &&& self.proofs.wf()
        &&& self.organizations.wf()
        &&& self.submissions.wf()
        &&& self.inboxes.wf()
        &&& self.messages.wf()
        &&& self@.wf()
        &&& forall|k: KeyView| #[trigger]
            self.organizations@.contains_key(k) ==> self.organizations@[k].submission_count
                <= self.submissions.count()
        &&& forall|k: KeyView| #[trigger]
            self.inboxes@.contains_key(k) ==> self.inboxes@[k].message_count
                <= self.messages.count()
    }

    /// A well-formed ledger is well formed as a mathematical value.
    pub proof fn lemma_wf_view(&self)
        requires
            self.wf(),
        ensures
            self@.wf(),
    {
    }

    /// A ledger that holds nothing.
    pub fn new() -> (ledger: Ledger)
        ensures
            ledger.wf(),
            ledger@ == LedgerView::empty(),
    {
        Ledger {
            proofs: Table::new(),
            organizations: Table::new(),
            submissions: Table::new(),
            inboxes: Table::new(),
            messages: Table::new(),
        }
    }

    /// The proof stored at `key`.
    pub fn proof_at(&self, key: &Key) -> (r: Result<&Proof, VoidError>)
        requires
            self.wf(),
        ensures
            match r {
                Ok(record) => self@.proofs.contains_key(key@) && record@ == self@.proofs[key@],
                Err(e) => e == VoidError::NotFound && !self@.proofs.contains_key(key@),
            },
    {
        self.proofs.read(key)
    }

    /// The organization stored at `key`.
    pub fn organization_at(&self, key: &Key) -> (r: Result<&Organization, VoidError>)
        requires
            self.wf(),
        ensures
            match r {
                Ok(record) => self@.organizations.contains_key(key@) && record@
                    == self@.organizations[key@],
                Err(e) => e == VoidError::NotFound && !self@.organizations.contains_key(key@),
            },
    {
        self.organizations.read(key)
    }

    /// The submission stored at `key`.
    pub fn submission_at(&self, key: &Key) -> (r: Result<&Submission, VoidError>)
        requires
            self.wf(),
        ensures
            match r {
                Ok(record) => self@.submissions.contains_key(key@) && record@
                    == self@.submissions[key@],
                Err(e) => e == VoidError::NotFound && !self@.submissions.contains_key(key@),
            },
    {
        self.submissions.read(key)
    }

    /// The inbox stored at `key`.
    pub fn inbox_at(&self, key: &Key) -> (r: Result<&Inbox, VoidError>)
        requires
            self.wf(),
        ensures
            match r {
                Ok(record) => self@.inboxes.contains_key(key@) && record@ == self@.inboxes[key@],
                Err(e) => e == VoidError::NotFound && !self@.inboxes.contains_key(key@),
            },
    {
        self.inboxes.read(key)
    }

    /// The message stored at `key`.
    pub fn message_at(&self, key: &Key) -> (r: Result<&DirectMessage, VoidError>)
        requires
            self.wf(),
        ensures
            match r {
                Ok(record) => self@.messages.contains_key(key@) && record@ == self@.messages[key@],
                Err(e) => e == VoidError::NotFound && !self@.messages.contains_key(key@),
            },
    {
        self.messages.read(key)
    }
}

/// Stores a hash as proof that a file existed at this moment. Each hash can
/// be registered once.
pub fn create_proof(ledger: &mut Ledger, ctx: &CreateProof, hash: [u8; 32]) -> (r: Result<
    (),
    VoidError,
>)
    requires
        old(ledger).wf(),
    ensures
        final(ledger).wf(),
        old(ledger)@.precedes(final(ledger)@),
        final(ledger)@ == old(ledger)@.create_proof(*ctx, hash@).0,
        r == old(ledger)@.create_proof(*ctx, hash@).1,
        r is Ok <==> !old(ledger)@.proofs.contains_key(proof_key(hash@)),
        r is Err ==> final(ledger)@ == old(ledger)@,
{
    let proof = Proof::new(hash, ctx.owner, ctx.now, ctx.bump);
    let key = proof.key();
    proof {
        lemma_create_proof_step(ledger@, *ctx, hash@);
    }
    match ledger.proofs.create_if_absent(key, proof) {
        Ok(()) => Ok(()),
        Err(e) => Err(e),
    }
}

/// Creates the drop box of an organization. The admin gives a name, a
/// description, a slug and the public key that tips are to be encrypted to.
/// Each slug can be taken once.
pub fn create_organization(
    ledger: &mut Ledger,
    ctx: &CreateOrganization,
    slug: String,
    name: String,
    description: String,
    encryption_key: [u8; 65],
) -> (r: Result<(), VoidError>)
    requires
        old(ledger).wf(),
    ensures
        final(ledger).wf(),
        old(ledger)@.precedes(final(ledger)@),
        final(ledger)@ == old(ledger)@.create_organization(
            *ctx,
            slug@,
            name@,
            description@,
            encryption_key@,
        ).0,
        r == old(ledger)@.create_organization(*ctx, slug@, name@, description@, encryption_key@).1,
        r is Ok <==> {
            &&& spec_validate_organization(slug@, name@, description@) is Ok
            &&& !old(ledger)@.organizations.contains_key(organization_key(encode_utf8(slug@)))
        },
        r is Err ==> final(ledger)@ == old(ledger)@,
{
    proof {
        lemma_create_organization_step(ledger@, *ctx, slug@, name@, description@, encryption_key@);
    }
    let organization = match Organization::create(
        slug,
        name,
        description,
        encryption_key,
        ctx.admin,
        ctx.now,
        ctx.bump,
    ) {
        Err(e) => {
            return Err(e);
        },
        Ok(organization) => organization,
    };
    let key = organization.key();
    match ledger.organizations.create_if_absent(key, organization) {
        Ok(()) => Ok(()),
        Err(e) => Err(e),
    }
}

/// Submits an encrypted tip to an organization and returns the id of the
/// submission. `arweave_hash` points to the encrypted payload, which is
/// stored elsewhere.
pub fn submit_tip(ledger: &mut Ledger, ctx: &SubmitTip, arweave_hash: String) -> (r: Result<
    u64,
    VoidError,
>)
    requires
        old(ledger).wf(),
    ensures
        final(ledger).wf(),
        old(ledger)@.precedes(final(ledger)@),
        final(ledger)@ == old(ledger)@.submit_tip(*ctx, arweave_hash@).0,
        match r {
            Ok(id) => old(ledger)@.submit_tip(*ctx, arweave_hash@).1 == Ok::<nat, VoidError>(
                id as nat,
            ),
            Err(e) => old(ledger)@.submit_tip(*ctx, arweave_hash@).1 == Err::<nat, VoidError>(e),
        },
        r is Ok <==> {
            &&& byte_len(arweave_hash@) <= 64
            &&& old(ledger)@.organizations.contains_key(ctx.organization@)
            &&& old(ledger)@.organizations[ctx.organization@].active
        },
        r matches Ok(id) ==> id == old(ledger)@.organizations[ctx.organization@].submission_count,
        r is Err ==> final(ledger)@ == old(ledger)@,
{
    proof {
        lemma_submit_tip_step(ledger@, *ctx, arweave_hash@);
    }
    match validate_arweave_hash(arweave_hash.as_str()) {
        Err(e) => {
            return Err(e);
        },
        Ok(()) => {},
    }
    let organization = match ledger.organizations.read(&ctx.organization) {
        Err(e) => {
            return Err(e);
        },
        Ok(organization) => organization,
    };
    let submission = match organization.admit_tip(
        arweave_hash,
        ctx.submitter,
        ctx.now,
        ctx.bump,
    ) {
        Err(e) => {
            return Err(e);
        },
        Ok(submission) => submission,
    };
    let id = submission.id;
    let key = submission.key();
    let created = ledger.submissions.create_if_absent(key, submission);
    assert(created is Ok);
    proof {
        ledger.submissions.lemma_count_bounded();
    }
    match ledger.organizations.mutate(&ctx.organization) {
        Ok(organization) => {
            organization.advance();
        },
        Err(_) => {},
    }
    Ok(id)
}

/// Deactivates an organization, which then takes no more tips. Only the
/// admin may.
pub fn deactivate_organization(ledger: &mut Ledger, ctx: &DeactivateOrganization) -> (r: Result<
    (),
    VoidError,
>)
    requires
        old(ledger).wf(),
    ensures
        final(ledger).wf(),
        old(ledger)@.precedes(final(ledger)@),
        final(ledger)@ == old(ledger)@.deactivate_organization(*ctx).0,
        r == old(ledger)@.deactivate_organization(*ctx).1,
        r is Ok <==> {
            &&& old(ledger)@.organizations.contains_key(ctx.organization@)
            &&& old(ledger)@.organizations[ctx.organization@].admin == ctx.admin@
        },
        r is Err ==> final(ledger)@ == old(ledger)@,
{
    proof {
        lemma_deactivate_organization_step(ledger@, *ctx);
    }
    match ledger.organizations.mutate(&ctx.organization) {
        Err(e) => Err(e),
        Ok(organization) => match authorize(
            Operation::DeactivateOrganization,
            &ctx.admin,
            &organization.admin,
        ) {
            Decision::Denied(_) => {
                assert(ledger.organizations@ =~= old(ledger).organizations@);
                Err(VoidError::Denied)
            },
            Decision::Allowed => {
                organization.deactivate();
                Ok(())
            },
        },
    }
}

/// Activates the inbox of the caller, with the public key that messages to
/// the caller are to be encrypted to. Each identity has one inbox.
pub fn activate_inbox(ledger: &mut Ledger, ctx: &ActivateInbox, encryption_key: [u8; 65]) -> (r:
    Result<(), VoidError>)
    requires
        old(ledger).wf(),
    ensures
        final(ledger).wf(),
        old(ledger)@.precedes(final(ledger)@),
        final(ledger)@ == old(ledger)@.activate_inbox(*ctx, encryption_key@).0,
        r == old(ledger)@.activate_inbox(*ctx, encryption_key@).1,
        r is Ok <==> !old(ledger)@.inboxes.contains_key(inbox_key(ctx.owner@)),
        r is Err ==> final(ledger)@ == old(ledger)@,
{
    proof {
        lemma_activate_inbox_step(ledger@, *ctx, encryption_key@);
    }
    let inbox = Inbox::new(ctx.owner, encryption_key, ctx.now, ctx.bump);
    let key = inbox.key();
    match ledger.inboxes.create_if_absent(key, inbox) {
        Ok(()) => Ok(()),
        Err(e) => Err(e),
    }
}

/// Sends an encrypted message to the owner of an inbox and returns the id of
/// the message. The recipient must have activated the inbox.
pub fn send_direct_message(
    ledger: &mut Ledger,
    ctx: &SendDirectMessage,
    arweave_hash: String,
    burn_after_reading: bool,
) -> (r: Result<u64, VoidError>)
    requires
        old(ledger).wf(),
    ensures
        final(ledger).wf(),
        old(ledger)@.precedes(final(ledger)@),
        final(ledger)@ == old(ledger)@.send_direct_message(
            *ctx,
            arweave_hash@,
            burn_after_reading,
        ).0,
        match r {
            Ok(id) => old(ledger)@.send_direct_message(*ctx, arweave_hash@, burn_after_reading).1
                == Ok::<nat, VoidError>(id as nat),
            Err(e) => old(ledger)@.send_direct_message(*ctx, arweave_hash@, burn_after_reading).1
                == Err::<nat, VoidError>(e),
        },
        r is Ok <==> {
            &&& byte_len(arweave_hash@) <= 64
            &&& old(ledger)@.inboxes.contains_key(ctx.recipient_inbox@)
        },
        r matches Ok(id) ==> id == old(ledger)@.inboxes[ctx.recipient_inbox@].message_count,
        r is Err ==> final(ledger)@ == old(ledger)@,
{
    proof {
        lemma_send_direct_message_step(ledger@, *ctx, arweave_hash@, burn_after_reading);
    }
    match validate_arweave_hash(arweave_hash.as_str()) {
        Err(e) => {
            return Err(e);
        },
        Ok(()) => {},
    }
    let inbox = match ledger.inboxes.read(&ctx.recipient_inbox) {
        Err(e) => {
            return Err(e);
        },
        Ok(inbox) => inbox,
    };
    let message = match inbox.admit_message(
        ctx.sender,
        arweave_hash,
        burn_after_reading,
        ctx.now,
        ctx.bump,
    ) {
        Err(e) => {
            return Err(e);
        },
        Ok(message) => message,
    };
    let id = message.id;
    let key = message.key();
    let created = ledger.messages.create_if_absent(key, message);
    assert(created is Ok);
    proof {
        ledger.messages.lemma_count_bounded();
    }
    match ledger.inboxes.mutate(&ctx.recipient_inbox) {
        Ok(inbox) => {
            inbox.advance();
        },
        Err(_) => {},
    }
    Ok(id)
}

/// Marks a message as burned. Only the recipient may, and a burned message
/// cannot be burned again or unburned.
pub fn burn_message(ledger: &mut Ledger, ctx: &BurnMessage) -> (r: Result<(), VoidError>)
    requires
        old(ledger).wf(),
    ensures
        final(ledger).wf(),
        old(ledger)@.precedes(final(ledger)@),
        final(ledger)@ == old(ledger)@.burn_message(*ctx).0,
        r == old(ledger)@.burn_message(*ctx).1,
        r is Ok <==> {
            &&& old(ledger)@.messages.contains_key(ctx.message@)
            &&& old(ledger)@.messages[ctx.message@].recipient == ctx.recipient@
            &&& !old(ledger)@.messages[ctx.message@].burned
        },
        r is Err ==> final(ledger)@ == old(ledger)@,
{
    proof {
        lemma_burn_message_step(ledger@, *ctx);
    }
    match ledger.messages.mutate(&ctx.message) {
        Err(e) => Err(e),
        Ok(message) => match authorize(Operation::BurnMessage, &ctx.recipient, &message.recipient) {
            Decision::Denied(_) => {
                assert(ledger.messages@ =~= old(ledger).messages@);
                Err(VoidError::Denied)
            },
            Decision::Allowed => match message.burn() {
                Ok(()) => Ok(()),
                Err(e) => {
                    assert(ledger.messages@ =~= old(ledger).messages@);
                    Err(e)
                },
            },
        },
    }
}

} // verus!
