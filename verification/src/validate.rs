//! Field checks that run before anything is written.
//!
//! Only lengths and emptiness are checked. A hash or a key of the right
//! length is accepted whatever it holds.

use vstd::prelude::*;
use vstd::utf8::encode_utf8;
use crate::error::VoidError;

verus! {

/// Longest organization slug, in bytes.
pub const MAX_SLUG_LEN: usize = 32;

/// Longest organization name, in bytes.
pub const MAX_NAME_LEN: usize = 64;

/// Longest organization description, in bytes.
pub const MAX_DESC_LEN: usize = 256;

/// Longest pointer to a stored payload, in bytes.
pub const MAX_ARWEAVE_HASH_LEN: usize = 64;

/// The text fields that carry a length bound.
#[derive(Clone, Copy, Debug, PartialEq, Eq, Structural)]
pub enum Field {
    Slug,
    Name,
    Description,
    ArweaveHash,
}

/// The length of a text as it is stored: the number of bytes of its UTF-8
/// encoding.
pub open spec fn byte_len(text: Seq<char>) -> nat {
    encode_utf8(text).len()
}

/// The bound of a field.
pub open spec fn spec_limit(field: Field) -> nat {
    match field {
        Field::Slug => 32,
        Field::Name => 64,
        Field::Description => 256,
        Field::ArweaveHash => 64,
    }
}

/// The failure that names a field as too long.
pub open spec fn spec_length_exceeded(field: Field) -> VoidError {
    match field {
        Field::Slug => VoidError::SlugTooLong,
        Field::Name => VoidError::NameTooLong,
        Field::Description => VoidError::DescriptionTooLong,
        Field::ArweaveHash => VoidError::ArweaveHashTooLong,
    }
}

/// A text passes as `field` exactly when it is no longer than the bound.
pub open spec fn spec_check_length(field: Field, text: Seq<char>) -> Result<(), VoidError> {
    if byte_len(text) <= spec_limit(field) {
        Ok(())
    } else {
        Err(spec_length_exceeded(field))
    }
}

/// The fields of an organization are checked in this order: slug, name and
/// description against their bounds, then the slug against emptiness.
pub open spec fn spec_validate_organization(
    slug: Seq<char>,
    name: Seq<char>,
    description: Seq<char>,
) -> Result<(), VoidError> {
    if byte_len(slug) > spec_limit(Field::Slug) {
        Err(VoidError::SlugTooLong)
    } else if byte_len(name) > spec_limit(Field::Name) {
        Err(VoidError::NameTooLong)
    } else if byte_len(description) > spec_limit(Field::Description) {
        Err(VoidError::DescriptionTooLong)
    } else if slug.len() == 0 {
        Err(VoidError::SlugEmpty)
    } else {
        Ok(())
    }
}

/// A pointer to a payload passes exactly when it keeps its bound.
pub open spec fn spec_validate_arweave_hash(arweave_hash: Seq<char>) -> Result<(), VoidError> {
    spec_check_length(Field::ArweaveHash, arweave_hash)
}

pub fn limit(field: Field) -> (n: usize)
    ensures
        n == spec_limit(field),
{
    match field {
        Field::Slug => MAX_SLUG_LEN,
        Field::Name => MAX_NAME_LEN,
        Field::Description => MAX_DESC_LEN,
        Field::ArweaveHash => MAX_ARWEAVE_HASH_LEN,
    }
}

pub fn length_exceeded(field: Field) -> (e: VoidError)
    ensures
        e == spec_length_exceeded(field),
{
    match field {
        Field::Slug => VoidError::SlugTooLong,
        Field::Name => VoidError::NameTooLong,
        Field::Description => VoidError::DescriptionTooLong,
        Field::ArweaveHash => VoidError::ArweaveHashTooLong,
    }
}

pub fn check_length(field: Field, text: &str) -> (r: Result<(), VoidError>)
    ensures
        r == spec_check_length(field, text@),
{
    if text.as_bytes().len() <= limit(field) {
        Ok(())
    } else {
        Err(length_exceeded(field))
    }
}

pub fn validate_organization(slug: &str, name: &str, description: &str) -> (r: Result<
    (),
    VoidError,
>)
    ensures
        r == spec_validate_organization(slug@, name@, description@),
        r is Ok <==> 0 < slug@.len() && byte_len(slug@) <= 32 && byte_len(name@) <= 64 && byte_len(
            description@,
        ) <= 256,
{
    match check_length(Field::Slug, slug) {
        Err(e) => {
            return Err(e);
        },
        Ok(()) => {},
    }
    match check_length(Field::Name, name) {
        Err(e) => {
            return Err(e);
        },
        Ok(()) => {},
    }
    match check_length(Field::Description, description) {
        Err(e) => {
            return Err(e);
        },
        Ok(()) => {},
    }
    if slug.is_empty() {
        return Err(VoidError::SlugEmpty);
    }
    Ok(())
}

pub fn validate_arweave_hash(arweave_hash: &str) -> (r: Result<(), VoidError>)
    ensures
        r == spec_validate_arweave_hash(arweave_hash@),
        r is Ok <==> byte_len(arweave_hash@) <= 64,
        r is Err ==> r == Err::<(), VoidError>(VoidError::ArweaveHashTooLong),
{
    check_length(Field::ArweaveHash, arweave_hash)
}

} // verus!
