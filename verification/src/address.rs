//! The address space: which key a record lives under, and where a program
//! keeps the record on chain.
//!
//! A key is made of the family of the record and of the fields that identify
//! it, so two records of one family share a key only when those fields agree.
//! The on-chain address of a key is derived from its seeds.

use vstd::prelude::*;
use vstd::bytes::{spec_u64_to_le_bytes, u64_to_le_bytes};
use vstd::slice::slice_to_vec;
use vstd::utf8::encode_utf8;
use anchor_lang::prelude::Pubkey;
use crate::identity::{bytes_equal, Identity};

verus! {

/// The families of records. Each has an address namespace of its own.
#[derive(Clone, Copy, Debug, PartialEq, Eq, Hash, Structural)]
pub enum Family {
    Proof,
    Organization,
    Submission,
    Inbox,
    DirectMessage,
}

/// A key as a mathematical value.
pub struct KeyView {
    pub family: Family,
    /// The hash of a proof, the slug of an organization (for a submission, of
    /// its organization), the owner of an inbox or the recipient of a message.
    pub name: Seq<u8>,
    /// The sequence number of a submission or a message; 0 for the others.
    pub index: nat,
}

/// The key of the proof of `hash`.
pub open spec fn proof_key(hash: Seq<u8>) -> KeyView {
    KeyView { family: Family::Proof, name: hash, index: 0 }
}

/// The key of the organization whose slug has these bytes.
pub open spec fn organization_key(slug: Seq<u8>) -> KeyView {
    KeyView { family: Family::Organization, name: slug, index: 0 }
}

/// The key of submission number `id` to `organization`.
pub open spec fn submission_key(organization: KeyView, id: nat) -> KeyView {
    KeyView { family: Family::Submission, name: organization.name, index: id }
}

/// The key of the inbox of `owner`.
pub open spec fn inbox_key(owner: Seq<u8>) -> KeyView {
    KeyView { family: Family::Inbox, name: owner, index: 0 }
}

/// The key of message number `id` to `recipient`.
pub open spec fn message_key(recipient: Seq<u8>, id: nat) -> KeyView {
    KeyView { family: Family::DirectMessage, name: recipient, index: id }
}

/// The storage key of a record.
#[derive(Debug, PartialEq, Eq, Hash)]
pub struct Key {
    family: Family,
    name: Vec<u8>,
    index: u64,
}

impl View for Key {
    type V = KeyView;

    closed spec fn view(&self) -> KeyView {
        KeyView { family: self.family, name: self.name@, index: self.index as nat }
    }
}

impl Clone for Key {
    fn clone(&self) -> (k: Key)
        ensures
            k@ == self@,
    {
        Key { family: self.family, name: slice_to_vec(self.name.as_slice()), index: self.index }
    }
}

impl Key {
    pub fn for_proof(hash: &[u8; 32]) -> (k: Key)
        ensures
            k@ == proof_key(hash@),
    {
        Key { family: Family::Proof, name: slice_to_vec(hash.as_slice()), index: 0 }
    }

    pub fn for_organization(slug: &str) -> (k: Key)
        ensures
            k@ == organization_key(encode_utf8(slug@)),
    {
        Key { family: Family::Organization, name: slice_to_vec(slug.as_bytes()), index: 0 }
    }

    pub fn for_submission(organization: &Key, id: u64) -> (k: Key)
        ensures
            k@ == submission_key(organization@, id as nat),
    {
        Key {
            family: Family::Submission,
            name: slice_to_vec(organization.name.as_slice()),
            index: id,
        }
    }

    pub fn for_inbox(owner: &Identity) -> (k: Key)
        ensures
            k@ == inbox_key(owner@),
    {
        Key { family: Family::Inbox, name: slice_to_vec(owner.bytes.as_slice()), index: 0 }
    }

    pub fn for_message(recipient: &Identity, id: u64) -> (k: Key)
        ensures
            k@ == message_key(recipient@, id as nat),
    {
        Key {
            family: Family::DirectMessage,
            name: slice_to_vec(recipient.bytes.as_slice()),
            index: id,
        }
    }

    pub fn family(&self) -> (f: Family)
        ensures
            f == self@.family,
    {
        self.family
    }

    /// The bytes that identify the record within its family.
    pub fn name(&self) -> (n: &[u8])
        ensures
            n@ == self@.name,
    {
        self.name.as_slice()
    }

    pub fn index(&self) -> (i: u64)
        ensures
            i == self@.index,
    {
        self.index
    }

    /// True when both keys name the same slot.
    pub fn same(&self, other: &Key) -> (r: bool)
        ensures
            r == (self@ == other@),
    {
        self.family == other.family && self.index == other.index && bytes_equal(
            self.name.as_slice(),
            other.name.as_slice(),
        )
    }
}

/// The tag that opens the seeds of every key of a family: the ASCII bytes of
/// `proof`, `org`, `submission`, `inbox` and `dm`.
pub open spec fn spec_tag(family: Family) -> Seq<u8> {
    match family {
        Family::Proof => seq![112u8, 114u8, 111u8, 111u8, 102u8],
        Family::Organization => seq![111u8, 114u8, 103u8],
        Family::Submission => seq![
            115u8,
            117u8,
            98u8,
            109u8,
            105u8,
            115u8,
            115u8,
            105u8,
            111u8,
            110u8,
        ],
        Family::Inbox => seq![105u8, 110u8, 98u8, 111u8, 120u8],
        Family::DirectMessage => seq![100u8, 109u8],
    }
}

/// True for the families whose records are numbered under a parent.
pub open spec fn spec_sequenced(family: Family) -> bool {
    family == Family::Submission || family == Family::DirectMessage
}

/// The seeds of an address: the family's tag, the anchor, and for a numbered
/// record the little-endian bytes of its number. The anchor is the hash of a
/// proof, the slug of an organization, the owner of an inbox, the recipient of
/// a message, and for a submission the address of its organization.
pub open spec fn spec_seeds(family: Family, anchor: Seq<u8>, index: u64) -> Seq<Seq<u8>> {
    if spec_sequenced(family) {
        seq![spec_tag(family), anchor, spec_u64_to_le_bytes(index)]
    } else {
        seq![spec_tag(family), anchor]
    }
}

/// What `Pubkey::try_find_program_address` returns for these seeds and this
/// program id: the derived address with its bump seed, or nothing.
pub uninterp spec fn program_address(seeds: Seq<Seq<u8>>, program_id: Seq<u8>) -> Option<
    (Seq<u8>, u8),
>;

/// Where a program keeps the record of `key`: the address derived from the
/// key's seeds, with its bump seed. A submission is seeded by the address of
/// its organization, which is derived first.
pub open spec fn spec_location(key: KeyView, program_id: Seq<u8>) -> Option<(Seq<u8>, u8)> {
    if key.family == Family::Submission {
        match program_address(spec_seeds(Family::Organization, key.name, 0), program_id) {
            Some((organization, _)) => program_address(
                spec_seeds(Family::Submission, organization, key.index as u64),
                program_id,
            ),
            None => None,
        }
    } else {
        program_address(spec_seeds(key.family, key.name, key.index as u64), program_id)
    }
}

/// An address on chain and the bump seed that was found for it.
#[derive(Clone, Copy, Debug, PartialEq, Eq)]
pub struct Location {
    pub address: [u8; 32],
    pub bump: u8,
}

pub fn tag(family: Family) -> (t: Vec<u8>)
    ensures
        t@ == spec_tag(family),
{
    match family {
        Family::Proof => vec![112u8, 114u8, 111u8, 111u8, 102u8],
        Family::Organization => vec![111u8, 114u8, 103u8],
        Family::Submission => vec![
            115u8,
            117u8,
            98u8,
            109u8,
            105u8,
            115u8,
            115u8,
            105u8,
            111u8,
            110u8,
        ],
        Family::Inbox => vec![105u8, 110u8, 98u8, 111u8, 120u8],
        Family::DirectMessage => vec![100u8, 109u8],
    }
}

pub fn sequenced(family: Family) -> (r: bool)
    ensures
        r == spec_sequenced(family),
{
    match family {
        Family::Submission | Family::DirectMessage => true,
        _ => false,
    }
}

/// Composes the seeds of an address.
pub fn seeds(family: Family, anchor: &[u8], index: u64) -> (s: Vec<Vec<u8>>)
    ensures
        s.deep_view() == spec_seeds(family, anchor@, index),
{
    let mut s: Vec<Vec<u8>> = Vec::new();
    s.push(tag(family));
    s.push(slice_to_vec(anchor));
    if sequenced(family) {
        s.push(u64_to_le_bytes(index));
    }
    assert(s.deep_view() =~~= spec_seeds(family, anchor@, index));
    s
}

/// Calls `Pubkey::try_find_program_address`, which hashes the seeds, a bump
/// seed and the program id, and returns the first hash that is no curve
/// point together with the bump seed that gave it, or nothing when no bump
/// seed does or the seeds are too many or too long. The contract says no
/// more than that the outcome is the one the name `program_address` stands
/// for: it depends on the seeds and the program id alone.
#[verifier::external_body]
fn find_program_address(seeds: &Vec<Vec<u8>>, program_id: &[u8; 32]) -> (r: Option<
    ([u8; 32], u8),
>)
    ensures
        match r {
            Some((address, bump)) => program_address(seeds.deep_view(), program_id@) == Some(
                (address@, bump),
            ),
            None => program_address(seeds.deep_view(), program_id@) is None,
        },
{
    let parts: Vec<&[u8]> = seeds.iter().map(|s| s.as_slice()).collect();
    let id = Pubkey::new_from_array(*program_id);
    Pubkey::try_find_program_address(&parts, &id).map(|(a, b)| (a.to_bytes(), b))
}

/// Finds where the program `program_id` keeps the record of `key`.
pub fn locate(key: &Key, program_id: &[u8; 32]) -> (r: Option<Location>)
    ensures
        match r {
            Some(l) => spec_location(key@, program_id@) == Some((l.address@, l.bump)),
            None => spec_location(key@, program_id@) is None,
        },
{
    let anchor: Vec<u8> = match key.family {
        Family::Submission => {
            let parent = seeds(Family::Organization, key.name.as_slice(), 0);
            match find_program_address(&parent, program_id) {
                Some((organization, _)) => slice_to_vec(organization.as_slice()),
                None => {
                    return None;
                },
            }
        },
        _ => slice_to_vec(key.name.as_slice()),
    };
    let s = seeds(key.family, anchor.as_slice(), key.index);
    match find_program_address(&s, program_id) {
        Some((address, bump)) => Some(Location { address, bump }),
        None => None,
    }
}

/// Keys do not collide. Two keys of one family are equal only where the
/// fields that identify the records are equal, and keys of different
/// families are never equal.
pub proof fn lemma_keys_collision_free()
    ensures
        forall|a: Seq<u8>, b: Seq<u8>|
            #![trigger proof_key(a), proof_key(b)]
            proof_key(a) == proof_key(b) ==> a == b,
        forall|a: Seq<u8>, b: Seq<u8>|
            #![trigger organization_key(a), organization_key(b)]
            organization_key(a) == organization_key(b) ==> a == b,
        forall|a: Seq<u8>, b: Seq<u8>|
            #![trigger inbox_key(a), inbox_key(b)]
            inbox_key(a) == inbox_key(b) ==> a == b,
        forall|a: Seq<u8>, b: Seq<u8>, i: nat, j: nat|
            #![trigger submission_key(organization_key(a), i), submission_key(organization_key(b), j)]
            submission_key(organization_key(a), i) == submission_key(organization_key(b), j) ==> a
                == b && i == j,
        forall|a: Seq<u8>, b: Seq<u8>, i: nat, j: nat|
            #![trigger message_key(a, i), message_key(b, j)]
            message_key(a, i) == message_key(b, j) ==> a == b && i == j,
        forall|a: KeyView, b: KeyView| a.family != b.family ==> a != b,
{
}

/// Two slugs that differ give two organization keys.
pub proof fn lemma_slug_identifies_organization(a: Seq<char>, b: Seq<char>)
    requires
        organization_key(encode_utf8(a)) == organization_key(encode_utf8(b)),
    ensures
        a == b,
{
    vstd::utf8::encode_utf8_decode_utf8(a);
    vstd::utf8::encode_utf8_decode_utf8(b);
}

/// Seeds do not collide. Two addresses have the same seeds only where they
/// are of one family with one anchor and, for numbered records, one number.
pub proof fn lemma_seeds_collision_free(
    family1: Family,
    anchor1: Seq<u8>,
    index1: u64,
    family2: Family,
    anchor2: Seq<u8>,
    index2: u64,
)
    requires
        spec_seeds(family1, anchor1, index1) == spec_seeds(family2, anchor2, index2),
    ensures
        family1 == family2,
        anchor1 == anchor2,
        spec_sequenced(family1) ==> index1 == index2,
{
    let s1 = spec_seeds(family1, anchor1, index1);
    let s2 = spec_seeds(family2, anchor2, index2);
    assert(s1[0] == s2[0]);
    assert(spec_tag(family1)[0] == spec_tag(family2)[0]);
    assert(s1[1] == s2[1]);
    if spec_sequenced(family1) {
        assert(s1[2] == s2[2]);
        vstd::bytes::lemma_auto_spec_u64_to_from_le_bytes();
    }
}

/// The bytes of the seeds in a row. The derivation hashes the seeds one after
/// the other, so two addresses whose seeds give the same row are the same
/// address.
pub open spec fn spec_seed_row(family: Family, anchor: Seq<u8>, index: u64) -> Seq<u8> {
    if spec_sequenced(family) {
        spec_tag(family) + anchor + spec_u64_to_le_bytes(index)
    } else {
        spec_tag(family) + anchor
    }
}

/// Seeds do not collide in a row either. With anchors of 32 bytes, but for
/// the slug of an organization, which may have any length, two addresses
/// have the same row of seed bytes only where they are of one family with
/// one anchor and, for numbered records, one number.
pub proof fn lemma_seed_rows_collision_free(
    family1: Family,
    anchor1: Seq<u8>,
    index1: u64,
    family2: Family,
    anchor2: Seq<u8>,
    index2: u64,
)
    requires
        spec_seed_row(family1, anchor1, index1) == spec_seed_row(family2, anchor2, index2),
        family1 != Family::Organization ==> anchor1.len() == 32,
        family2 != Family::Organization ==> anchor2.len() == 32,
    ensures
        family1 == family2,
        anchor1 == anchor2,
        spec_sequenced(family1) ==> index1 == index2,
{
    let r1 = spec_seed_row(family1, anchor1, index1);
    let r2 = spec_seed_row(family2, anchor2, index2);
    let t1 = spec_tag(family1);
    let t2 = spec_tag(family2);
    assert(r1[0] == t1[0]);
    assert(r2[0] == t2[0]);
    assert(family1 == family2);
    let n = t1.len() as int;
    vstd::bytes::lemma_auto_spec_u64_to_from_le_bytes();
    if spec_sequenced(family1) {
        let e1 = spec_u64_to_le_bytes(index1);
        let e2 = spec_u64_to_le_bytes(index2);
        assert(anchor1 =~= r1.subrange(n, n + 32));
        assert(anchor2 =~= r2.subrange(n, n + 32));
        assert(e1 =~= r1.subrange(n + 32, n + 40));
        assert(e2 =~= r2.subrange(n + 32, n + 40));
    } else {
        assert(anchor1 =~= r1.subrange(n, r1.len() as int));
        assert(anchor2 =~= r2.subrange(n, r2.len() as int));
    }
}

} // verus!
