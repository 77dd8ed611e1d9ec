//! What holds of the operations, whatever the ledger and the arguments.

use vstd::prelude::*;
use vstd::utf8::{encode_utf8, is_ascii_chars, is_ascii_chars_encode_utf8};
use crate::address::{
    inbox_key, message_key, organization_key, proof_key, submission_key, Family, KeyView,
};
use crate::context::{
    ActivateInbox, BurnMessage, CreateOrganization, CreateProof, DeactivateOrganization,
    SendDirectMessage, SubmitTip,
};
use crate::error::{ErrorKind, VoidError};
use crate::layout::spec_space;
use crate::model::{Call, LedgerView, Tip};
use crate::records::OrganizationView;
use crate::validate::{byte_len, spec_validate_organization};

verus! {

/// The empty ledger is well formed.
pub proof fn lemma_empty_wf()
    ensures
        LedgerView::empty().wf(),
{
}

/// `create_proof` keeps the ledger well formed and takes nothing back.
pub proof fn lemma_create_proof_step(ledger: LedgerView, ctx: CreateProof, hash: Seq<u8>)
    requires
        ledger.wf(),
    ensures
        ledger.create_proof(ctx, hash).0.wf(),
        ledger.precedes(ledger.create_proof(ctx, hash).0),
{
}

/// `create_organization` keeps the ledger well formed and takes nothing
/// back.
pub proof fn lemma_create_organization_step(
    ledger: LedgerView,
    ctx: CreateOrganization,
    slug: Seq<char>,
    name: Seq<char>,
    description: Seq<char>,
    encryption_key: Seq<u8>,
)
    requires
        ledger.wf(),
    ensures
        ledger.create_organization(ctx, slug, name, description, encryption_key).0.wf(),
        ledger.precedes(
            ledger.create_organization(ctx, slug, name, description, encryption_key).0,
        ),
{
}

/// `submit_tip` keeps the ledger well formed and takes nothing back.
pub proof fn lemma_submit_tip_step(ledger: LedgerView, ctx: SubmitTip, arweave_hash: Seq<char>)
    requires
        ledger.wf(),
    ensures
        ledger.submit_tip(ctx, arweave_hash).0.wf(),
        ledger.precedes(ledger.submit_tip(ctx, arweave_hash).0),
{
}

/// `deactivate_organization` keeps the ledger well formed and takes nothing
/// back.
pub proof fn lemma_deactivate_organization_step(ledger: LedgerView, ctx: DeactivateOrganization)
    requires
        ledger.wf(),
    ensures
        ledger.deactivate_organization(ctx).0.wf(),
        ledger.precedes(ledger.deactivate_organization(ctx).0),
{
}

/// `activate_inbox` keeps the ledger well formed and takes nothing back.
pub proof fn lemma_activate_inbox_step(
    ledger: LedgerView,
    ctx: ActivateInbox,
    encryption_key: Seq<u8>,
)
    requires
        ledger.wf(),
    ensures
        ledger.activate_inbox(ctx, encryption_key).0.wf(),
        ledger.precedes(ledger.activate_inbox(ctx, encryption_key).0),
{
}

/// `send_direct_message` keeps the ledger well formed and takes nothing
/// back.
pub proof fn lemma_send_direct_message_step(
    ledger: LedgerView,
    ctx: SendDirectMessage,
    arweave_hash: Seq<char>,
    burn_after_reading: bool,
)
    requires
        ledger.wf(),
    ensures
        ledger.send_direct_message(ctx, arweave_hash, burn_after_reading).0.wf(),
        ledger.precedes(ledger.send_direct_message(ctx, arweave_hash, burn_after_reading).0),
{
}

/// `burn_message` keeps the ledger well formed and takes nothing back.
pub proof fn lemma_burn_message_step(ledger: LedgerView, ctx: BurnMessage)
    requires
        ledger.wf(),
    ensures
        ledger.burn_message(ctx).0.wf(),
        ledger.precedes(ledger.burn_message(ctx).0),
{
}

/// A hash is registered once. The first call succeeds exactly when no proof
/// of the hash is stored; the second is refused as a conflict whoever makes
/// it and whenever, and changes nothing: the proof stays that of the first
/// caller, with the time of the first call.
pub proof fn law_proof_created_once(
    ledger: LedgerView,
    first: CreateProof,
    second: CreateProof,
    hash: Seq<u8>,
)
    ensures
        ({
            let (once, r1) = ledger.create_proof(first, hash);
            let (twice, r2) = once.create_proof(second, hash);
            &&& r1 is Ok <==> !ledger.proofs.contains_key(proof_key(hash))
            &&& r2 == Err::<(), VoidError>(VoidError::AlreadyExists)
            &&& VoidError::AlreadyExists.spec_kind() == ErrorKind::Conflict
            &&& twice == once
            &&& r1 is Ok ==> {
                &&& twice.proofs[proof_key(hash)].owner == first.owner@
                &&& twice.proofs[proof_key(hash)].timestamp == first.now
            }
        }),
{
}

/// A slug is taken once. Of two calls with one slug the second never
/// succeeds and changes nothing. Where its fields pass the checks it is
/// refused as a conflict, whatever name, description and key it brings;
/// where they do not, it is refused for the field that fails.
pub proof fn law_organization_created_once(
    ledger: LedgerView,
    first: CreateOrganization,
    second: CreateOrganization,
    slug: Seq<char>,
    name1: Seq<char>,
    description1: Seq<char>,
    encryption_key1: Seq<u8>,
    name2: Seq<char>,
    description2: Seq<char>,
    encryption_key2: Seq<u8>,
)
    ensures
        ({
            let (once, r1) = ledger.create_organization(
                first,
                slug,
                name1,
                description1,
                encryption_key1,
            );
            let (twice, r2) = once.create_organization(
                second,
                slug,
                name2,
                description2,
                encryption_key2,
            );
            &&& r1 is Ok <==> {
                &&& spec_validate_organization(slug, name1, description1) is Ok
                &&& !ledger.organizations.contains_key(organization_key(encode_utf8(slug)))
            }
            &&& r1 is Ok ==> r2 is Err
            &&& r1 is Ok && spec_validate_organization(slug, name2, description2) is Ok ==> r2
                == Err::<(), VoidError>(VoidError::AlreadyExists)
            &&& spec_validate_organization(slug, name2, description2) is Err ==> r2
                == spec_validate_organization(slug, name2, description2)
            &&& r2 is Err ==> twice == once
        }),
{
}

/// A tip to an active organization takes the counter as its id and moves the
/// counter up by one; the submission is stored under the organization and
/// that id.
pub proof fn law_tip_takes_counter(ledger: LedgerView, ctx: SubmitTip, arweave_hash: Seq<char>)
    requires
        ledger.wf(),
        ledger.organizations.contains_key(ctx.organization@),
        ledger.organizations[ctx.organization@].active,
        byte_len(arweave_hash) <= 64,
    ensures
        ({
            let n = ledger.organizations[ctx.organization@].submission_count;
            let (after, r) = ledger.submit_tip(ctx, arweave_hash);
            let key = submission_key(ctx.organization@, n);
            &&& r == Ok::<nat, VoidError>(n)
            &&& after.organizations[ctx.organization@].submission_count == n + 1
            &&& !ledger.submissions.contains_key(key)
            &&& after.submissions.contains_key(key)
            &&& after.submissions[key].id == n
            &&& after.submissions[key].organization == ctx.organization@
            &&& after.submissions[key].arweave_hash == arweave_hash
            &&& after.submissions[key].submitter == ctx.submitter@
        }),
{
}

/// A tip to an inactive organization is refused and the ledger, counter
/// included, stays as it was. With a pointer within its bound the refusal is
/// for the state of the organization.
pub proof fn law_inactive_organization_takes_no_tip(
    ledger: LedgerView,
    ctx: SubmitTip,
    arweave_hash: Seq<char>,
)
    requires
        ledger.organizations.contains_key(ctx.organization@),
        !ledger.organizations[ctx.organization@].active,
    ensures
        ledger.submit_tip(ctx, arweave_hash).1 is Err,
        byte_len(arweave_hash) <= 64 ==> ledger.submit_tip(ctx, arweave_hash).1 == Err::<
            nat,
            VoidError,
        >(VoidError::OrgInactive),
        VoidError::OrgInactive.spec_kind() == ErrorKind::State,
        ledger.submit_tip(ctx, arweave_hash).0 == ledger,
{
}

/// Burning is one way. The recipient burns an unburned message, which is then
/// burned; the recipient who tries again is refused for the state of the
/// message, which stays burned.
pub proof fn law_message_burned_once(ledger: LedgerView, first: BurnMessage, second: BurnMessage)
    requires
        ledger.messages.contains_key(first.message@),
        !ledger.messages[first.message@].burned,
        first.recipient@ == ledger.messages[first.message@].recipient,
        second.message@ == first.message@,
        second.recipient@ == first.recipient@,
    ensures
        ({
            let (once, r1) = ledger.burn_message(first);
            let (twice, r2) = once.burn_message(second);
            &&& r1 is Ok
            &&& once.messages[first.message@].burned
            &&& r2 == Err::<(), VoidError>(VoidError::AlreadyBurned)
            &&& VoidError::AlreadyBurned.spec_kind() == ErrorKind::State
            &&& twice == once
            &&& twice.messages[first.message@].burned
        }),
{
}

/// Only the admin deactivates. Any other caller is refused for want of
/// authority and the ledger stays as it was; the admin succeeds, also where
/// the organization is inactive already, and the organization is inactive
/// afterwards.
pub proof fn law_only_admin_deactivates(ledger: LedgerView, ctx: DeactivateOrganization)
    requires
        ledger.organizations.contains_key(ctx.organization@),
    ensures
        ({
            let admin = ledger.organizations[ctx.organization@].admin;
            let (after, r) = ledger.deactivate_organization(ctx);
            &&& ctx.admin@ != admin ==> {
                &&& r == Err::<(), VoidError>(VoidError::Denied)
                &&& after == ledger
            }
            &&& VoidError::Denied.spec_kind() == ErrorKind::Authorization
            &&& ctx.admin@ == admin ==> {
                &&& r is Ok
                &&& !after.organizations[ctx.organization@].active
            }
        }),
{
}

/// A run of tips to one active organization: each pointer keeps its bound.
pub open spec fn tips_to(tips: Seq<Tip>, organization: KeyView) -> bool {
    forall|i: int|
        0 <= i < tips.len() ==> (#[trigger] tips[i]).ctx.organization@ == organization && byte_len(
            tips[i].arweave_hash,
        ) <= 64
}

/// After a run of tips to one active organization the ledger is well formed,
/// the organization is still active, and its counter has moved up by the
/// number of tips.
pub proof fn lemma_tips_counted(ledger: LedgerView, organization: KeyView, tips: Seq<Tip>)
    requires
        ledger.wf(),
        ledger.organizations.contains_key(organization),
        ledger.organizations[organization].active,
        tips_to(tips, organization),
    ensures
        ledger.submit_tips(tips).wf(),
        ledger.submit_tips(tips).organizations.contains_key(organization),
        ledger.submit_tips(tips).organizations[organization].active,
        ledger.submit_tips(tips).organizations[organization].submission_count
            == ledger.organizations[organization].submission_count + tips.len(),
    decreases tips.len(),
{
    if tips.len() > 0 {
        let front = tips.drop_last();
        assert forall|i: int| 0 <= i < front.len() implies (#[trigger] front[i]).ctx.organization@
            == organization && byte_len(front[i].arweave_hash) <= 64 by {
            assert(front[i] == tips[i]);
        }
        lemma_tips_counted(ledger, organization, front);
        let before = ledger.submit_tips(front);
        let last = tips.last();
        assert(last == tips[tips.len() - 1]);
        lemma_submit_tip_step(before, last.ctx, last.arweave_hash);
        law_tip_takes_counter(before, last.ctx, last.arweave_hash);
    }
}

/// Tips to one active organization are numbered without gap or repeat. Of a
/// run of tips to an organization whose counter is `n`, call number `i`
/// returns the id `n + i`, and the submission is stored under that id, so the
/// ids of the run are `n`, `n + 1`, ... in the order of the calls.
pub proof fn law_tips_numbered_densely(ledger: LedgerView, organization: KeyView, tips: Seq<Tip>)
    requires
        ledger.wf(),
        ledger.organizations.contains_key(organization),
        ledger.organizations[organization].active,
        tips_to(tips, organization),
    ensures
        forall|i: int|
            0 <= i < tips.len() ==> #[trigger] ledger.tip_result(tips, i) == Ok::<nat, VoidError>(
                (ledger.organizations[organization].submission_count + i) as nat,
            ),
        forall|i: int|
            0 <= i < tips.len() ==> ledger.submit_tips(tips).submissions.contains_key(
                #[trigger] submission_key(
                    organization,
                    (ledger.organizations[organization].submission_count + i) as nat,
                ),
            ),
        ledger.submit_tips(tips).organizations[organization].submission_count
            == ledger.organizations[organization].submission_count + tips.len(),
{
    let n = ledger.organizations[organization].submission_count;
    lemma_tips_counted(ledger, organization, tips);
    assert forall|i: int| 0 <= i < tips.len() implies #[trigger] ledger.tip_result(tips, i) == Ok::<
        nat,
        VoidError,
    >((n + i) as nat) by {
        let front = tips.take(i);
        assert forall|j: int| 0 <= j < front.len() implies (#[trigger] front[j]).ctx.organization@
            == organization && byte_len(front[j].arweave_hash) <= 64 by {
            assert(front[j] == tips[j]);
        }
        lemma_tips_counted(ledger, organization, front);
        law_tip_takes_counter(ledger.submit_tips(front), tips[i].ctx, tips[i].arweave_hash);
    }
    let after = ledger.submit_tips(tips);
    assert forall|i: int| 0 <= i < tips.len() implies after.submissions.contains_key(
        #[trigger] submission_key(organization, (n + i) as nat),
    ) by {
        assert(after.organizations.contains_key(organization));
        assert(((n + i) as nat) < after.organizations[organization].submission_count);
    }
}

/// Every ledger can turn into itself.
pub proof fn lemma_precedes_reflexive(ledger: LedgerView)
    ensures
        ledger.precedes(ledger),
{
}

/// What a ledger can turn into in two moves, it can turn into.
pub proof fn lemma_precedes_transitive(first: LedgerView, second: LedgerView, third: LedgerView)
    requires
        first.precedes(second),
        second.precedes(third),
    ensures
        first.precedes(third),
{
}

/// Every record of a well-formed ledger fits the room reserved for its
/// family.
pub proof fn lemma_records_fit(ledger: LedgerView)
    requires
        ledger.wf(),
    ensures
        forall|k: KeyView| #[trigger]
            ledger.organizations.contains_key(k) ==> ledger.organizations[k].footprint()
                <= spec_space(Family::Organization),
        forall|k: KeyView| #[trigger]
            ledger.submissions.contains_key(k) ==> ledger.submissions[k].footprint() <= spec_space(
                Family::Submission,
            ),
        forall|k: KeyView| #[trigger]
            ledger.messages.contains_key(k) ==> ledger.messages[k].footprint() <= spec_space(
                Family::DirectMessage,
            ),
{
}

/// An identity has one inbox. The first call succeeds exactly when the owner
/// has no inbox; the second is refused as a conflict, whatever key it brings,
/// and changes nothing.
pub proof fn law_inbox_created_once(
    ledger: LedgerView,
    first: ActivateInbox,
    second: ActivateInbox,
    encryption_key1: Seq<u8>,
    encryption_key2: Seq<u8>,
)
    requires
        second.owner@ == first.owner@,
    ensures
        ({
            let (once, r1) = ledger.activate_inbox(first, encryption_key1);
            let (twice, r2) = once.activate_inbox(second, encryption_key2);
            &&& r1 is Ok <==> !ledger.inboxes.contains_key(inbox_key(first.owner@))
            &&& r2 == Err::<(), VoidError>(VoidError::AlreadyExists)
            &&& twice == once
        }),
{
}

/// A message to an inbox takes the counter as its id and moves the counter up
/// by one; it is stored under the owner of the inbox and that id, names the
/// owner as its recipient, and is not burned.
pub proof fn law_message_takes_counter(
    ledger: LedgerView,
    ctx: SendDirectMessage,
    arweave_hash: Seq<char>,
    burn_after_reading: bool,
)
    requires
        ledger.wf(),
        ledger.inboxes.contains_key(ctx.recipient_inbox@),
        byte_len(arweave_hash) <= 64,
    ensures
        ({
            let inbox = ledger.inboxes[ctx.recipient_inbox@];
            let n = inbox.message_count;
            let (after, r) = ledger.send_direct_message(ctx, arweave_hash, burn_after_reading);
            let key = message_key(inbox.owner, n);
            &&& r == Ok::<nat, VoidError>(n)
            &&& after.inboxes[ctx.recipient_inbox@].message_count == n + 1
            &&& !ledger.messages.contains_key(key)
            &&& after.messages.contains_key(key)
            &&& after.messages[key].id == n
            &&& after.messages[key].recipient == inbox.owner
            &&& after.messages[key].sender == ctx.sender@
            &&& after.messages[key].burn_after_reading == burn_after_reading
            &&& !after.messages[key].burned
        }),
{
}

/// The bound of the slug in characters, for a slug of ASCII characters and a
/// name and a description within their bounds: 1 to 32 characters pass, 33
/// and more are too long, and none is empty, though it keeps the bound.
pub proof fn law_slug_boundary(slug: Seq<char>, name: Seq<char>, description: Seq<char>)
    requires
        is_ascii_chars(slug),
        byte_len(name) <= 64,
        byte_len(description) <= 256,
    ensures
        1 <= slug.len() <= 32 ==> spec_validate_organization(slug, name, description) is Ok,
        slug.len() > 32 ==> spec_validate_organization(slug, name, description) == Err::<
            (),
            VoidError,
        >(VoidError::SlugTooLong),
        slug.len() == 0 ==> spec_validate_organization(slug, name, description) == Err::<
            (),
            VoidError,
        >(VoidError::SlugEmpty),
        VoidError::SlugTooLong.spec_kind() == ErrorKind::Validation,
        VoidError::SlugEmpty.spec_kind() == ErrorKind::Validation,
{
    is_ascii_chars_encode_utf8(slug);
}

/// Two tips admitted against one state of an organization take the same id
/// and so the same key, whatever they bring: of two callers that read one
/// counter, the store admits one.
pub proof fn law_one_counter_one_address(
    organization: OrganizationView,
    arweave_hash1: Seq<char>,
    submitter1: Seq<u8>,
    timestamp1: i64,
    bump1: u8,
    arweave_hash2: Seq<char>,
    submitter2: Seq<u8>,
    timestamp2: i64,
    bump2: u8,
)
    requires
        organization.admit_tip(arweave_hash1, submitter1, timestamp1, bump1) is Ok,
        organization.admit_tip(arweave_hash2, submitter2, timestamp2, bump2) is Ok,
    ensures
        organization.admit_tip(arweave_hash1, submitter1, timestamp1, bump1)->Ok_0.key()
            == organization.admit_tip(arweave_hash2, submitter2, timestamp2, bump2)->Ok_0.key(),
        organization.admit_tip(arweave_hash1, submitter1, timestamp1, bump1)->Ok_0.key()
            == submission_key(organization.key(), organization.submission_count),
{
}

/// One call, of whatever operation, keeps the ledger well formed and takes
/// nothing back.
pub proof fn lemma_apply_step(ledger: LedgerView, call: Call)
    requires
        ledger.wf(),
    ensures
        ledger.apply(call).wf(),
        ledger.precedes(ledger.apply(call)),
{
    match call {
        Call::CreateProof { ctx, hash } => lemma_create_proof_step(ledger, ctx, hash),
        Call::CreateOrganization { ctx, slug, name, description, encryption_key } => {
            lemma_create_organization_step(ledger, ctx, slug, name, description, encryption_key)
        },
        Call::SubmitTip { ctx, arweave_hash } => lemma_submit_tip_step(ledger, ctx, arweave_hash),
        Call::DeactivateOrganization { ctx } => lemma_deactivate_organization_step(ledger, ctx),
        Call::ActivateInbox { ctx, encryption_key } => lemma_activate_inbox_step(
            ledger,
            ctx,
            encryption_key,
        ),
        Call::SendDirectMessage { ctx, arweave_hash, burn_after_reading } => {
            lemma_send_direct_message_step(ledger, ctx, arweave_hash, burn_after_reading)
        },
        Call::BurnMessage { ctx } => lemma_burn_message_step(ledger, ctx),
    }
}

/// Whatever calls are made and in whatever order, a well-formed ledger stays
/// well formed and nothing is taken back: no record goes, no counter falls,
/// no organization is active again and no message is unburned.
pub proof fn law_every_run_is_sound(ledger: LedgerView, calls: Seq<Call>)
    requires
        ledger.wf(),
    ensures
        ledger.run(calls).wf(),
        ledger.precedes(ledger.run(calls)),
    decreases calls.len(),
{
    if calls.len() > 0 {
        law_every_run_is_sound(ledger, calls.drop_last());
        let before = ledger.run(calls.drop_last());
        lemma_apply_step(before, calls.last());
        lemma_precedes_transitive(ledger, before, ledger.run(calls));
    }
}

/// Every ledger that the operations can make of the empty ledger is well
/// formed. In it the ids of the submissions to an organization, and of the
/// messages to an inbox, are 0, 1, 2, ... up to the counter of the parent.
pub proof fn law_every_reachable_ledger_is_well_formed(calls: Seq<Call>)
    ensures
        LedgerView::empty().run(calls).wf(),
{
    lemma_empty_wf();
    law_every_run_is_sound(LedgerView::empty(), calls);
}

} // verus!
