//! The room a record takes in storage.
//!
//! The room of a record is reserved when the record is created, at the most
//! its family can take. A record is laid out as an 8-byte discriminator and
//! then its fields in order: integers at their width, a flag as one byte, an
//! identity or an address as 32 bytes, an encryption key as 65 bytes, a text
//! as a 4-byte length and then its bytes.

use vstd::prelude::*;
use crate::address::Family;
use crate::records::{
    DirectMessage, DirectMessageView, Organization, OrganizationView, Submission, SubmissionView,
};
use crate::validate::byte_len;

verus! {

/// The room reserved for a record of a family.
pub open spec fn spec_space(family: Family) -> nat {
    match family {
        Family::Proof => 8 + 32 + 32 + 8 + 1,
        Family::Organization => 8 + (4 + 32) + (4 + 64) + (4 + 256) + 65 + 32 + 8 + 8 + 1 + 1,
        Family::Submission => 8 + 8 + 32 + (4 + 64) + 32 + 8 + 1,
        Family::Inbox => 8 + 32 + 65 + 8 + 8 + 1,
        Family::DirectMessage => 8 + 8 + 32 + 32 + (4 + 64) + 1 + 1 + 8 + 1,
    }
}

/// The room a text takes: its length, then its bytes.
pub open spec fn spec_text_room(text: Seq<char>) -> nat {
    4 + byte_len(text)
}

impl OrganizationView {
    /// The room this organization takes.
    pub open spec fn footprint(self) -> nat {
        8 + spec_text_room(self.slug) + spec_text_room(self.name) + spec_text_room(
            self.description,
        ) + 65 + 32 + 8 + 8 + 1 + 1
    }
}

impl SubmissionView {
    /// The room this submission takes.
    pub open spec fn footprint(self) -> nat {
        8 + 8 + 32 + spec_text_room(self.arweave_hash) + 32 + 8 + 1
    }
}

impl DirectMessageView {
    /// The room this message takes.
    pub open spec fn footprint(self) -> nat {
        8 + 8 + 32 + 32 + spec_text_room(self.arweave_hash) + 1 + 1 + 8 + 1
    }
}

pub fn space(family: Family) -> (n: usize)
    ensures
        n == spec_space(family),
{
    match family {
        Family::Proof => 81,
        Family::Organization => 487,
        Family::Submission => 157,
        Family::Inbox => 122,
        Family::DirectMessage => 159,
    }
}

fn text_room(text: &str) -> (n: usize)
    requires
        byte_len(text@) <= 256,
    ensures
        n == spec_text_room(text@),
{
    4 + text.as_bytes().len()
}

impl Organization {
    /// The room this organization takes. With its fields in their bounds it
    /// is within what is reserved for an organization.
    pub fn footprint(&self) -> (n: usize)
        requires
            self@.valid(),
        ensures
            n == self@.footprint(),
            n <= spec_space(Family::Organization),
    {
        8 + text_room(self.slug.as_str()) + text_room(self.name.as_str()) + text_room(
            self.description.as_str(),
        ) + 65 + 32 + 8 + 8 + 1 + 1
    }
}

impl Submission {
    /// The room this submission takes. With its pointer in its bound it is
    /// within what is reserved for a submission.
    pub fn footprint(&self) -> (n: usize)
        requires
            byte_len(self@.arweave_hash) <= 64,
        ensures
            n == self@.footprint(),
            n <= spec_space(Family::Submission),
    {
        8 + 8 + 32 + text_room(self.arweave_hash.as_str()) + 32 + 8 + 1
    }
}

impl DirectMessage {
    /// The room this message takes. With its pointer in its bound it is
    /// within what is reserved for a message.
    pub fn footprint(&self) -> (n: usize)
        requires
            byte_len(self@.arweave_hash) <= 64,
        ensures
            n == self@.footprint(),
            n <= spec_space(Family::DirectMessage),
    {
        8 + 8 + 32 + 32 + text_room(self.arweave_hash.as_str()) + 1 + 1 + 8 + 1
    }
}

} // verus!
