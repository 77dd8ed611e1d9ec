use void_protocol::access::{authorize, Decision, Operation, Reason};
use void_protocol::sequence::{next, Issued};
use void_protocol::validate::{
    check_length, length_exceeded, limit, validate_arweave_hash, validate_organization, Field,
    MAX_ARWEAVE_HASH_LEN, MAX_DESC_LEN, MAX_NAME_LEN, MAX_SLUG_LEN,
};
use void_protocol::{ErrorKind, Identity, VoidError};

#[test]
fn bounds_of_the_text_fields() {
    assert_eq!(MAX_SLUG_LEN, 32);
    assert_eq!(MAX_NAME_LEN, 64);
    assert_eq!(MAX_DESC_LEN, 256);
    assert_eq!(MAX_ARWEAVE_HASH_LEN, 64);
    assert_eq!(limit(Field::Slug), 32);
    assert_eq!(limit(Field::Name), 64);
    assert_eq!(limit(Field::Description), 256);
    assert_eq!(limit(Field::ArweaveHash), 64);
}

#[test]
fn each_field_has_its_own_failure() {
    assert_eq!(length_exceeded(Field::Slug), VoidError::SlugTooLong);
    assert_eq!(length_exceeded(Field::Name), VoidError::NameTooLong);
    assert_eq!(length_exceeded(Field::Description), VoidError::DescriptionTooLong);
    assert_eq!(length_exceeded(Field::ArweaveHash), VoidError::ArweaveHashTooLong);
}

#[test]
fn length_is_checked_at_the_bound() {
    assert_eq!(check_length(Field::Slug, &"s".repeat(32)), Ok(()));
    assert_eq!(check_length(Field::Slug, &"s".repeat(33)), Err(VoidError::SlugTooLong));
    assert_eq!(check_length(Field::Name, &"s".repeat(64)), Ok(()));
    assert_eq!(check_length(Field::Name, &"s".repeat(65)), Err(VoidError::NameTooLong));
    assert_eq!(check_length(Field::Description, &"s".repeat(256)), Ok(()));
    assert_eq!(
        check_length(Field::Description, &"s".repeat(257)),
        Err(VoidError::DescriptionTooLong)
    );
    assert_eq!(check_length(Field::ArweaveHash, ""), Ok(()));
    assert_eq!(check_length(Field::Slug, ""), Ok(()));
}

#[test]
fn organization_fields_are_checked_in_order() {
    assert_eq!(validate_organization("acme", "Acme", "Tips"), Ok(()));
    assert_eq!(validate_organization("", "Acme", "Tips"), Err(VoidError::SlugEmpty));
    assert_eq!(
        validate_organization(&"s".repeat(33), &"n".repeat(65), &"d".repeat(257)),
        Err(VoidError::SlugTooLong)
    );
    assert_eq!(
        validate_organization("", &"n".repeat(65), &"d".repeat(257)),
        Err(VoidError::NameTooLong)
    );
    assert_eq!(validate_organization("", "", &"d".repeat(257)), Err(VoidError::DescriptionTooLong));
    assert_eq!(validate_organization("a", "", ""), Ok(()));
}

#[test]
fn pointer_is_checked_and_nothing_else() {
    assert_eq!(validate_arweave_hash(""), Ok(()));
    assert_eq!(validate_arweave_hash("not a hash at all !!"), Ok(()));
    assert_eq!(validate_arweave_hash(&"x".repeat(64)), Ok(()));
    assert_eq!(validate_arweave_hash(&"x".repeat(65)), Err(VoidError::ArweaveHashTooLong));
    assert_eq!(validate_arweave_hash(&"ü".repeat(32)), Ok(()));
    assert_eq!(validate_arweave_hash(&"ü".repeat(33)), Err(VoidError::ArweaveHashTooLong));
}

#[test]
fn anyone_may_create() {
    let a = Identity::new([1u8; 32]);
    let b = Identity::new([2u8; 32]);
    assert_eq!(authorize(Operation::CreateProof, &a, &b), Decision::Allowed);
    assert_eq!(authorize(Operation::CreateOrganization, &a, &b), Decision::Allowed);
    assert_eq!(authorize(Operation::SubmitTip, &a, &b), Decision::Allowed);
    assert_eq!(authorize(Operation::ActivateInbox, &a, &b), Decision::Allowed);
    assert_eq!(authorize(Operation::SendDirectMessage, &a, &b), Decision::Allowed);
}

#[test]
fn changes_are_for_the_holder() {
    let a = Identity::new([1u8; 32]);
    let mut almost = [1u8; 32];
    almost[31] = 0;
    let b = Identity::new(almost);
    assert_eq!(authorize(Operation::DeactivateOrganization, &a, &a), Decision::Allowed);
    assert_eq!(
        authorize(Operation::DeactivateOrganization, &b, &a),
        Decision::Denied(Reason::NotAdmin)
    );
    assert_eq!(authorize(Operation::BurnMessage, &a, &a), Decision::Allowed);
    assert_eq!(authorize(Operation::BurnMessage, &a, &b), Decision::Denied(Reason::NotRecipient));
}

#[test]
fn identities_compare_by_their_bytes() {
    let a = Identity::new([1u8; 32]);
    let mut bytes = [1u8; 32];
    assert!(a.same(&Identity::new(bytes)));
    bytes[0] = 2;
    assert!(!a.same(&Identity::new(bytes)));
    assert_eq!(a.bytes, [1u8; 32]);
}

#[test]
fn counter_issues_itself_and_moves_by_one() {
    assert_eq!(next(0), Issued { id: 0, counter: 1 });
    assert_eq!(next(41), Issued { id: 41, counter: 42 });
    assert_eq!(next(u64::MAX - 1), Issued { id: u64::MAX - 1, counter: u64::MAX });
}

#[test]
fn every_failure_has_its_class() {
    assert_eq!(VoidError::SlugTooLong.kind(), ErrorKind::Validation);
    assert_eq!(VoidError::NameTooLong.kind(), ErrorKind::Validation);
    assert_eq!(VoidError::DescriptionTooLong.kind(), ErrorKind::Validation);
    assert_eq!(VoidError::SlugEmpty.kind(), ErrorKind::Validation);
    assert_eq!(VoidError::ArweaveHashTooLong.kind(), ErrorKind::Validation);
    assert_eq!(VoidError::OrgInactive.kind(), ErrorKind::State);
    assert_eq!(VoidError::AlreadyBurned.kind(), ErrorKind::State);
    assert_eq!(VoidError::AlreadyExists.kind(), ErrorKind::Conflict);
    assert_eq!(VoidError::Denied.kind(), ErrorKind::Authorization);
    assert_eq!(VoidError::NotFound.kind(), ErrorKind::Lookup);
}

#[test]
fn every_failure_has_its_text() {
    assert_eq!(VoidError::SlugTooLong.message(), "Organization slug too long (max 32 chars)");
    assert_eq!(VoidError::NameTooLong.message(), "Organization name too long (max 64 chars)");
    assert_eq!(
        VoidError::DescriptionTooLong.message(),
        "Organization description too long (max 256 chars)"
    );
    assert_eq!(VoidError::SlugEmpty.message(), "Slug cannot be empty");
    assert_eq!(VoidError::ArweaveHashTooLong.message(), "Arweave hash too long (max 64 chars)");
    assert_eq!(VoidError::OrgInactive.message(), "Organization is inactive");
    assert_eq!(VoidError::AlreadyBurned.message(), "Message has already been burned");
    assert_eq!(VoidError::AlreadyExists.message(), "A record already exists at this address");
    assert_eq!(VoidError::Denied.message(), "Caller is not authorized for this record");
    assert_eq!(VoidError::NotFound.message(), "No record exists at this address");
}
