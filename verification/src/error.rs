//! The typed failures of the ledger and the classes they fall into.

use vstd::prelude::*;

verus! {

/// The class of a failure. Every class is recoverable by the caller; none
/// leaves a partial write behind.
#[derive(Clone, Copy, Debug, PartialEq, Eq, Structural)]
pub enum ErrorKind {
    /// A field broke a length or emptiness rule; nothing was looked up yet.
    Validation,
    /// The address the record would live at is already occupied.
    Conflict,
    /// The record is in a state that does not admit the operation.
    State,
    /// The caller does not stand in the required relation to the record.
    Authorization,
    /// No record lives at the address the operation names.
    Lookup,
}

/// Why an operation was rejected.
#[derive(Clone, Copy, Debug, PartialEq, Eq, Structural)]
pub enum VoidError {
    /// The slug is longer than 32 bytes.
    SlugTooLong,
    /// The name is longer than 64 bytes.
    NameTooLong,
    /// The description is longer than 256 bytes.
    DescriptionTooLong,
    /// The slug is empty.
    SlugEmpty,
    /// The pointer to the payload is longer than 64 bytes.
    ArweaveHashTooLong,
    /// The organization no longer takes submissions.
    OrgInactive,
    /// The message is burned already.
    AlreadyBurned,
    /// A record lives at the address already.
    AlreadyExists,
    /// The caller is not the one the record names.
    Denied,
    /// No record lives at the address.
    NotFound,
}

impl VoidError {
    /// The class of this failure.
    pub open spec fn spec_kind(self) -> ErrorKind {
        match self {
            VoidError::SlugTooLong => ErrorKind::Validation,
            VoidError::NameTooLong => ErrorKind::Validation,
            VoidError::DescriptionTooLong => ErrorKind::Validation,
            VoidError::SlugEmpty => ErrorKind::Validation,
            VoidError::ArweaveHashTooLong => ErrorKind::Validation,
            VoidError::OrgInactive => ErrorKind::State,
            VoidError::AlreadyBurned => ErrorKind::State,
            VoidError::AlreadyExists => ErrorKind::Conflict,
            VoidError::Denied => ErrorKind::Authorization,
            VoidError::NotFound => ErrorKind::Lookup,
        }
    }

    /// The text shown to a user for this failure.
    pub open spec fn spec_message(self) -> Seq<char> {
        match self {
            VoidError::SlugTooLong => "Organization slug too long (max 32 chars)"@,
            VoidError::NameTooLong => "Organization name too long (max 64 chars)"@,
            VoidError::DescriptionTooLong => "Organization description too long (max 256 chars)"@,
            VoidError::SlugEmpty => "Slug cannot be empty"@,
            VoidError::ArweaveHashTooLong => "Arweave hash too long (max 64 chars)"@,
            VoidError::OrgInactive => "Organization is inactive"@,
            VoidError::AlreadyBurned => "Message has already been burned"@,
            VoidError::AlreadyExists => "A record already exists at this address"@,
            VoidError::Denied => "Caller is not authorized for this record"@,
            VoidError::NotFound => "No record exists at this address"@,
        }
    }

    #[verifier::when_used_as_spec(spec_kind)]
    pub fn kind(self) -> (k: ErrorKind)
        ensures
            k == self.spec_kind(),
    {
        match self {
            VoidError::SlugTooLong
            | VoidError::NameTooLong
            | VoidError::DescriptionTooLong
            | VoidError::SlugEmpty
            | VoidError::ArweaveHashTooLong => ErrorKind::Validation,
            VoidError::OrgInactive | VoidError::AlreadyBurned => ErrorKind::State,
            VoidError::AlreadyExists => ErrorKind::Conflict,
            VoidError::Denied => ErrorKind::Authorization,
            VoidError::NotFound => ErrorKind::Lookup,
        }
    }

    pub fn message(self) -> (m: &'static str)
        ensures
            m@ == self.spec_message(),
    {
        match self {
            VoidError::SlugTooLong => "Organization slug too long (max 32 chars)",
            VoidError::NameTooLong => "Organization name too long (max 64 chars)",
            VoidError::DescriptionTooLong => "Organization description too long (max 256 chars)",
            VoidError::SlugEmpty => "Slug cannot be empty",
            VoidError::ArweaveHashTooLong => "Arweave hash too long (max 64 chars)",
            VoidError::OrgInactive => "Organization is inactive",
            VoidError::AlreadyBurned => "Message has already been burned",
            VoidError::AlreadyExists => "A record already exists at this address",
            VoidError::Denied => "Caller is not authorized for this record",
            VoidError::NotFound => "No record exists at this address",
        }
    }
}

} // verus!
