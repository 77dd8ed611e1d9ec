//! The records of each family, and what may happen to them.
//!
//! A record is written once. Afterwards only three things change: the counter
//! of an organization or an inbox goes up by one with every child, an
//! organization goes from active to inactive, and a message goes from unburned
//! to burned. None of these goes back.

use vstd::prelude::*;
use vstd::utf8::encode_utf8;
use crate::address::{
    inbox_key, message_key, organization_key, proof_key, submission_key, Key, KeyView,
};
use crate::error::VoidError;
use crate::identity::Identity;
use crate::sequence::{next, spec_advance, spec_issued_id};
use crate::validate::{
    spec_validate_arweave_hash, spec_validate_organization, validate_arweave_hash,
    validate_organization,
};

verus! {

/// Proof that a content hash was registered, by whom and when.
#[derive(Clone, Copy, Debug, PartialEq, Eq)]
pub struct Proof {
    pub hash: [u8; 32],
    pub owner: Identity,
    pub timestamp: i64,
    /// Bump seed of the address the proof is stored at.
    pub bump: u8,
}

/// A proof as a mathematical value.
pub struct ProofView {
    pub hash: Seq<u8>,
    pub owner: Seq<u8>,
    pub timestamp: i64,
    pub bump: u8,
}

impl View for Proof {
    type V = ProofView;

    open spec fn view(&self) -> ProofView {
        ProofView {
            hash: self.hash@,
            owner: self.owner@,
            timestamp: self.timestamp,
            bump: self.bump,
        }
    }
}

impl ProofView {
    pub open spec fn key(self) -> KeyView {
        proof_key(self.hash)
    }
}

impl Proof {
    pub fn new(hash: [u8; 32], owner: Identity, timestamp: i64, bump: u8) -> (p: Proof)
        ensures
            p@ == (ProofView { hash: hash@, owner: owner@, timestamp, bump }),
    {
        Proof { hash, owner, timestamp, bump }
    }

    pub fn key(&self) -> (k: Key)
        ensures
            k@ == self@.key(),
    {
        Key::for_proof(&self.hash)
    }
}

/// A drop box: the public key that tips to an organization are encrypted to,
/// and the count of the tips received.
#[derive(Debug, PartialEq, Eq)]
pub struct Organization {
    pub slug: String,
    pub name: String,
    pub description: String,
    pub encryption_key: [u8; 65],
    pub admin: Identity,
    pub submission_count: u64,
    pub created_at: i64,
    pub active: bool,
    pub bump: u8,
}

/// An organization as a mathematical value. Counters and ids are natural numbers.
pub struct OrganizationView {
    pub slug: Seq<char>,
    pub name: Seq<char>,
    pub description: Seq<char>,
    pub encryption_key: Seq<u8>,
    pub admin: Seq<u8>,
    pub submission_count: nat,
    pub created_at: i64,
    pub active: bool,
    pub bump: u8,
}

impl View for Organization {
    type V = OrganizationView;

    open spec fn view(&self) -> OrganizationView {
        OrganizationView {
            slug: self.slug@,
            name: self.name@,
            description: self.description@,
            encryption_key: self.encryption_key@,
            admin: self.admin@,
            submission_count: self.submission_count as nat,
            created_at: self.created_at,
            active: self.active,
            bump: self.bump,
        }
    }
}

impl Clone for Organization {
    fn clone(&self) -> (o: Organization)
        ensures
            o@ == self@,
    {
        Organization {
            slug: self.slug.clone(),
            name: self.name.clone(),
            description: self.description.clone(),
            encryption_key: self.encryption_key,
            admin: self.admin,
            submission_count: self.submission_count,
            created_at: self.created_at,
            active: self.active,
            bump: self.bump,
        }
    }
}

/// A pointer to an encrypted tip, numbered within its organization.
#[derive(Debug, PartialEq, Eq)]
pub struct Submission {
    pub id: u64,
    /// The key of the organization the tip went to.
    pub organization: Key,
    pub arweave_hash: String,
    pub submitter: Identity,
    pub timestamp: i64,
    pub bump: u8,
}

/// A submission as a mathematical value. Counters and ids are natural numbers.
pub struct SubmissionView {
    pub id: nat,
    pub organization: KeyView,
    pub arweave_hash: Seq<char>,
    pub submitter: Seq<u8>,
    pub timestamp: i64,
    pub bump: u8,
}

impl View for Submission {
    type V = SubmissionView;

    open spec fn view(&self) -> SubmissionView {
        SubmissionView {
            id: self.id as nat,
            organization: self.organization@,
            arweave_hash: self.arweave_hash@,
            submitter: self.submitter@,
            timestamp: self.timestamp,
            bump: self.bump,
        }
    }
}

impl Clone for Submission {
    fn clone(&self) -> (s: Submission)
        ensures
            s@ == self@,
    {
        Submission {
            id: self.id,
            organization: self.organization.clone(),
            arweave_hash: self.arweave_hash.clone(),
            submitter: self.submitter,
            timestamp: self.timestamp,
            bump: self.bump,
        }
    }
}

impl SubmissionView {
    pub open spec fn key(self) -> KeyView {
        submission_key(self.organization, self.id)
    }
}

impl Submission {
    pub fn key(&self) -> (k: Key)
        ensures
            k@ == self@.key(),
    {
        Key::for_submission(&self.organization, self.id)
    }
}

impl OrganizationView {
    pub open spec fn key(self) -> KeyView {
        organization_key(encode_utf8(self.slug))
    }

    /// The text fields keep their bounds and the slug is not empty.
    pub open spec fn valid(self) -> bool {
        spec_validate_organization(self.slug, self.name, self.description) is Ok
    }

    /// A new organization: active, with no submission yet.
    pub open spec fn create(
        slug: Seq<char>,
        name: Seq<char>,
        description: Seq<char>,
        encryption_key: Seq<u8>,
        admin: Seq<u8>,
        created_at: i64,
        bump: u8,
    ) -> Result<OrganizationView, VoidError> {
        match spec_validate_organization(slug, name, description) {
            Err(e) => Err(e),
            Ok(()) => Ok(
                OrganizationView {
                    slug,
                    name,
                    description,
                    encryption_key,
                    admin,
                    submission_count: 0,
                    created_at,
                    active: true,
                    bump,
                },
            ),
        }
    }

    /// The submission that a tip becomes: it takes the counter as its id. A
    /// pointer over its bound is refused first, an inactive organization
    /// second.
    pub open spec fn admit_tip(
        self,
        arweave_hash: Seq<char>,
        submitter: Seq<u8>,
        timestamp: i64,
        bump: u8,
    ) -> Result<SubmissionView, VoidError> {
        match spec_validate_arweave_hash(arweave_hash) {
            Err(e) => Err(e),
            Ok(()) => if !self.active {
                Err(VoidError::OrgInactive)
            } else {
                Ok(
                    SubmissionView {
                        id: spec_issued_id(self.submission_count),
                        organization: self.key(),
                        arweave_hash,
                        submitter,
                        timestamp,
                        bump,
                    },
                )
            },
        }
    }

    /// The organization after one more submission.
    pub open spec fn advance(self) -> OrganizationView {
        OrganizationView { submission_count: spec_advance(self.submission_count), ..self }
    }

    /// The organization once it takes no more submissions.
    pub open spec fn deactivate(self) -> OrganizationView {
        OrganizationView { active: false, ..self }
    }
}

impl Organization {
    /// Checks the fields and makes the record of a new organization.
    pub fn create(
        slug: String,
        name: String,
        description: String,
        encryption_key: [u8; 65],
        admin: Identity,
        created_at: i64,
        bump: u8,
    ) -> (r: Result<Organization, VoidError>)
        ensures
            match r {
                Ok(o) => OrganizationView::create(
                    slug@,
                    name@,
                    description@,
                    encryption_key@,
                    admin@,
                    created_at,
                    bump,
                ) == Ok::<OrganizationView, VoidError>(o@),
                Err(e) => OrganizationView::create(
                    slug@,
                    name@,
                    description@,
                    encryption_key@,
                    admin@,
                    created_at,
                    bump,
                ) == Err::<OrganizationView, VoidError>(e),
            },
    {
        match validate_organization(slug.as_str(), name.as_str(), description.as_str()) {
            Err(e) => Err(e),
            Ok(()) => Ok(
                Organization {
                    slug,
                    name,
                    description,
                    encryption_key,
                    admin,
                    submission_count: 0,
                    created_at,
                    active: true,
                    bump,
                },
            ),
        }
    }

    pub fn key(&self) -> (k: Key)
        ensures
            k@ == self@.key(),
    {
        Key::for_organization(self.slug.as_str())
    }

    /// Makes the submission for a tip, numbered by the counter. The counter
    /// itself moves with `advance`, in the same step of the caller.
    pub fn admit_tip(
        &self,
        arweave_hash: String,
        submitter: Identity,
        timestamp: i64,
        bump: u8,
    ) -> (r: Result<Submission, VoidError>)
        ensures
            match r {
                Ok(s) => self@.admit_tip(arweave_hash@, submitter@, timestamp, bump) == Ok::<
                    SubmissionView,
                    VoidError,
                >(s@),
                Err(e) => self@.admit_tip(arweave_hash@, submitter@, timestamp, bump) == Err::<
                    SubmissionView,
                    VoidError,
                >(e),
            },
    {
        match validate_arweave_hash(arweave_hash.as_str()) {
            Err(e) => {
                return Err(e);
            },
            Ok(()) => {},
        }
        if !self.active {
            return Err(VoidError::OrgInactive);
        }
        Ok(
            Submission {
                id: self.submission_count,
                organization: self.key(),
                arweave_hash,
                submitter,
                timestamp,
                bump,
            },
        )
    }

    /// Counts one more submission.
    pub fn advance(&mut self)
        requires
            old(self).submission_count < u64::MAX,
        ensures
            final(self)@ == old(self)@.advance(),
    {
        self.submission_count = next(self.submission_count).counter;
    }

    /// Stops the organization from taking submissions. Doing so again
    /// changes nothing.
    pub fn deactivate(&mut self)
        ensures
            final(self)@ == old(self)@.deactivate(),
    {
        self.active = false;
    }
}

/// The inbox of one owner: the public key that messages to the owner are
/// encrypted to, and the count of the messages received.
#[derive(Clone, Copy, Debug, PartialEq, Eq)]
pub struct Inbox {
    pub owner: Identity,
    pub encryption_key: [u8; 65],
    pub message_count: u64,
    pub created_at: i64,
    pub bump: u8,
}

/// An inbox as a mathematical value. Counters and ids are natural numbers.
pub struct InboxView {
    pub owner: Seq<u8>,
    pub encryption_key: Seq<u8>,
    pub message_count: nat,
    pub created_at: i64,
    pub bump: u8,
}

impl View for Inbox {
    type V = InboxView;

    open spec fn view(&self) -> InboxView {
        InboxView {
            owner: self.owner@,
            encryption_key: self.encryption_key@,
            message_count: self.message_count as nat,
            created_at: self.created_at,
            bump: self.bump,
        }
    }
}

/// A pointer to an encrypted message, numbered within the inbox of its
/// recipient.
#[derive(Debug, PartialEq, Eq)]
pub struct DirectMessage {
    pub id: u64,
    pub sender: Identity,
    pub recipient: Identity,
    pub arweave_hash: String,
    /// The sender asks that the message be burned once read. The ledger does
    /// not act on it: burning is a step of its own.
    pub burn_after_reading: bool,
    pub burned: bool,
    pub timestamp: i64,
    pub bump: u8,
}

/// A message as a mathematical value. Counters and ids are natural numbers.
pub struct DirectMessageView {
    pub id: nat,
    pub sender: Seq<u8>,
    pub recipient: Seq<u8>,
    pub arweave_hash: Seq<char>,
    pub burn_after_reading: bool,
    pub burned: bool,
    pub timestamp: i64,
    pub bump: u8,
}

impl View for DirectMessage {
    type V = DirectMessageView;

    open spec fn view(&self) -> DirectMessageView {
        DirectMessageView {
            id: self.id as nat,
            sender: self.sender@,
            recipient: self.recipient@,
            arweave_hash: self.arweave_hash@,
            burn_after_reading: self.burn_after_reading,
            burned: self.burned,
            timestamp: self.timestamp,
            bump: self.bump,
        }
    }
}

impl Clone for DirectMessage {
    fn clone(&self) -> (m: DirectMessage)
        ensures
            m@ == self@,
    {
        DirectMessage {
            id: self.id,
            sender: self.sender,
            recipient: self.recipient,
            arweave_hash: self.arweave_hash.clone(),
            burn_after_reading: self.burn_after_reading,
            burned: self.burned,
            timestamp: self.timestamp,
            bump: self.bump,
        }
    }
}

impl DirectMessageView {
    pub open spec fn key(self) -> KeyView {
        message_key(self.recipient, self.id)
    }

    /// The message once it is burned.
    pub open spec fn burn(self) -> Result<DirectMessageView, VoidError> {
        if self.burned {
            Err(VoidError::AlreadyBurned)
        } else {
            Ok(DirectMessageView { burned: true, ..self })
        }
    }
}

impl DirectMessage {
    pub fn key(&self) -> (k: Key)
        ensures
            k@ == self@.key(),
    {
        Key::for_message(&self.recipient, self.id)
    }

    /// Marks the message as burned. A burned message is refused and stays
    /// burned.
    pub fn burn(&mut self) -> (r: Result<(), VoidError>)
        ensures
            match r {
                Ok(()) => old(self)@.burn() == Ok::<DirectMessageView, VoidError>(final(self)@),
                Err(e) => {
                    &&& old(self)@.burn() == Err::<DirectMessageView, VoidError>(e)
                    &&& final(self)@ == old(self)@
                },
            },
    {
        if self.burned {
            return Err(VoidError::AlreadyBurned);
        }
        self.burned = true;
        Ok(())
    }
}

impl InboxView {
    pub open spec fn key(self) -> KeyView {
        inbox_key(self.owner)
    }

    /// A new inbox, with no message yet.
    pub open spec fn create(
        owner: Seq<u8>,
        encryption_key: Seq<u8>,
        created_at: i64,
        bump: u8,
    ) -> InboxView {
        InboxView { owner, encryption_key, message_count: 0, created_at, bump }
    }

    /// The message that a send becomes: it takes the counter as its id and the
    /// owner of the inbox as its recipient, and starts unburned.
    pub open spec fn admit_message(
        self,
        sender: Seq<u8>,
        arweave_hash: Seq<char>,
        burn_after_reading: bool,
        timestamp: i64,
        bump: u8,
    ) -> Result<DirectMessageView, VoidError> {
        match spec_validate_arweave_hash(arweave_hash) {
            Err(e) => Err(e),
            Ok(()) => Ok(
                DirectMessageView {
                    id: spec_issued_id(self.message_count),
                    sender,
                    recipient: self.owner,
                    arweave_hash,
                    burn_after_reading,
                    burned: false,
                    timestamp,
                    bump,
                },
            ),
        }
    }

    /// The inbox after one more message.
    pub open spec fn advance(self) -> InboxView {
        InboxView { message_count: spec_advance(self.message_count), ..self }
    }
}

impl Inbox {
    pub fn new(owner: Identity, encryption_key: [u8; 65], created_at: i64, bump: u8) -> (i: Inbox)
        ensures
            i@ == InboxView::create(owner@, encryption_key@, created_at, bump),
    {
        Inbox { owner, encryption_key, message_count: 0, created_at, bump }
    }

    pub fn key(&self) -> (k: Key)
        ensures
            k@ == self@.key(),
    {
        Key::for_inbox(&self.owner)
    }

    /// Makes the message for a send, numbered by the counter. The counter
    /// itself moves with `advance`, in the same step of the caller.
    pub fn admit_message(
        &self,
        sender: Identity,
        arweave_hash: String,
        burn_after_reading: bool,
        timestamp: i64,
        bump: u8,
    ) -> (r: Result<DirectMessage, VoidError>)
        ensures
            match r {
                Ok(m) => self@.admit_message(
                    sender@,
                    arweave_hash@,
                    burn_after_reading,
                    timestamp,
                    bump,
                ) == Ok::<DirectMessageView, VoidError>(m@),
                Err(e) => self@.admit_message(
                    sender@,
                    arweave_hash@,
                    burn_after_reading,
                    timestamp,
                    bump,
                ) == Err::<DirectMessageView, VoidError>(e),
            },
    {
        match validate_arweave_hash(arweave_hash.as_str()) {
            Err(e) => {
                return Err(e);
            },
            Ok(()) => {},
        }
        Ok(
            DirectMessage {
                id: self.message_count,
                sender,
                recipient: self.owner,
                arweave_hash,
                burn_after_reading,
                burned: false,
                timestamp,
                bump,
            },
        )
    }

    /// Counts one more message.
    pub fn advance(&mut self)
        requires
            old(self).message_count < u64::MAX,
        ensures
            final(self)@ == old(self)@.advance(),
    {
        self.message_count = next(self.message_count).counter;
    }
}

} // verus!
