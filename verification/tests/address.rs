use anchor_lang::prelude::Pubkey;
use void_protocol::address::{sequenced, tag};
use void_protocol::{
    activate_inbox, create_organization, create_proof, locate, seeds, send_direct_message,
    submit_tip, ActivateInbox, CreateOrganization, CreateProof, Family, Identity, Key, Ledger,
    SendDirectMessage, SubmitTip,
};

const PROGRAM: [u8; 32] = [
    0x85, 0x1c, 0x0e, 0x31, 0x77, 0x02, 0x5a, 0x9b, 0x10, 0xe4, 0x6d, 0x2f, 0xc8, 0x43, 0x91, 0x0a,
    0x5e, 0xb7, 0x28, 0xf6, 0x3d, 0x64, 0x99, 0x12, 0xaa, 0x07, 0xd5, 0x4c, 0x3b, 0x80, 0x1f, 0x66,
];

fn program() -> Pubkey {
    Pubkey::new_from_array(PROGRAM)
}

#[test]
fn tags_are_the_family_names_in_ascii() {
    assert_eq!(tag(Family::Proof), b"proof".to_vec());
    assert_eq!(tag(Family::Organization), b"org".to_vec());
    assert_eq!(tag(Family::Submission), b"submission".to_vec());
    assert_eq!(tag(Family::Inbox), b"inbox".to_vec());
    assert_eq!(tag(Family::DirectMessage), b"dm".to_vec());
}

#[test]
fn only_children_are_numbered() {
    assert!(!sequenced(Family::Proof));
    assert!(!sequenced(Family::Organization));
    assert!(sequenced(Family::Submission));
    assert!(!sequenced(Family::Inbox));
    assert!(sequenced(Family::DirectMessage));
}

#[test]
fn seeds_of_a_proof() {
    let hash = [9u8; 32];
    assert_eq!(seeds(Family::Proof, &hash, 0), vec![b"proof".to_vec(), hash.to_vec()]);
    assert_eq!(seeds(Family::Proof, &hash, 77), vec![b"proof".to_vec(), hash.to_vec()]);
}

#[test]
fn seeds_of_an_organization_and_an_inbox() {
    assert_eq!(
        seeds(Family::Organization, "acme".as_bytes(), 0),
        vec![b"org".to_vec(), b"acme".to_vec()]
    );
    assert_eq!(seeds(Family::Inbox, &[5u8; 32], 0), vec![b"inbox".to_vec(), vec![5u8; 32]]);
}

#[test]
fn seeds_of_children_end_in_the_little_endian_number() {
    assert_eq!(
        seeds(Family::Submission, &[1u8; 32], 258),
        vec![b"submission".to_vec(), vec![1u8; 32], vec![2, 1, 0, 0, 0, 0, 0, 0]]
    );
    assert_eq!(
        seeds(Family::DirectMessage, &[2u8; 32], 0x0807060504030201),
        vec![b"dm".to_vec(), vec![2u8; 32], vec![1, 2, 3, 4, 5, 6, 7, 8]]
    );
    assert_eq!(
        seeds(Family::DirectMessage, &[2u8; 32], u64::MAX),
        vec![b"dm".to_vec(), vec![2u8; 32], vec![255u8; 8]]
    );
}

#[test]
fn keys_are_equal_where_their_fields_are() {
    let hash = [7u8; 32];
    assert!(Key::for_proof(&hash).same(&Key::for_proof(&hash)));
    assert_eq!(Key::for_proof(&hash), Key::for_proof(&hash));
    let mut other = hash;
    other[0] = 8;
    assert!(!Key::for_proof(&hash).same(&Key::for_proof(&other)));
    assert!(Key::for_organization("acme").same(&Key::for_organization("acme")));
    assert!(!Key::for_organization("acme").same(&Key::for_organization("acm")));
    assert!(!Key::for_organization("acme").same(&Key::for_organization("acmf")));
}

#[test]
fn keys_of_different_families_differ() {
    let bytes = [7u8; 32];
    let who = Identity::new(bytes);
    assert!(!Key::for_proof(&bytes).same(&Key::for_inbox(&who)));
    assert!(!Key::for_inbox(&who).same(&Key::for_message(&who, 0)));
    let org = Key::for_organization("acme");
    assert!(!org.same(&Key::for_submission(&org, 0)));
}

#[test]
fn child_keys_differ_by_parent_and_number() {
    let acme = Key::for_organization("acme");
    let zeta = Key::for_organization("zeta");
    assert!(Key::for_submission(&acme, 3).same(&Key::for_submission(&acme, 3)));
    assert!(!Key::for_submission(&acme, 3).same(&Key::for_submission(&acme, 4)));
    assert!(!Key::for_submission(&acme, 3).same(&Key::for_submission(&zeta, 3)));
    let a = Identity::new([1u8; 32]);
    let b = Identity::new([2u8; 32]);
    assert!(Key::for_message(&a, 0).same(&Key::for_message(&a, 0)));
    assert!(!Key::for_message(&a, 0).same(&Key::for_message(&a, 1)));
    assert!(!Key::for_message(&a, 0).same(&Key::for_message(&b, 0)));
}

#[test]
fn key_parts_can_be_read_back() {
    let acme = Key::for_organization("acme");
    assert_eq!(acme.family(), Family::Organization);
    assert_eq!(acme.name(), b"acme");
    assert_eq!(acme.index(), 0);
    let third = Key::for_submission(&acme, 3);
    assert_eq!(third.family(), Family::Submission);
    assert_eq!(third.name(), b"acme");
    assert_eq!(third.index(), 3);
    let who = Identity::new([6u8; 32]);
    let message = Key::for_message(&who, 12);
    assert_eq!(message.family(), Family::DirectMessage);
    assert_eq!(message.name(), &[6u8; 32]);
    assert_eq!(message.index(), 12);
    assert_eq!(Key::for_inbox(&who).family(), Family::Inbox);
    assert_eq!(Key::for_proof(&[1u8; 32]).family(), Family::Proof);
}

#[test]
fn cloned_key_is_the_same_key() {
    let key = Key::for_submission(&Key::for_organization("acme"), 9);
    let copy = key.clone();
    assert!(copy.same(&key));
    assert_eq!(copy, key);
}

#[test]
fn proof_is_located_at_its_program_address() {
    let hash = [7u8; 32];
    let found = locate(&Key::for_proof(&hash), &PROGRAM).unwrap();
    let (address, bump) = Pubkey::find_program_address(&[b"proof", &hash], &program());
    assert_eq!(found.address, address.to_bytes());
    assert_eq!(found.bump, bump);
    assert_ne!(found.address, PROGRAM);
    assert_ne!(found.address, hash);
    let again =
        Pubkey::create_program_address(&[b"proof", &hash, &[found.bump]], &program()).unwrap();
    assert_eq!(again.to_bytes(), found.address);
}

#[test]
fn organization_and_inbox_are_located_by_slug_and_owner() {
    let org = locate(&Key::for_organization("washington-post"), &PROGRAM).unwrap();
    let (address, bump) = Pubkey::find_program_address(&[b"org", b"washington-post"], &program());
    assert_eq!((org.address, org.bump), (address.to_bytes(), bump));

    let owner = Identity::new([5u8; 32]);
    let inbox = locate(&Key::for_inbox(&owner), &PROGRAM).unwrap();
    let (address, bump) = Pubkey::find_program_address(&[b"inbox", &[5u8; 32]], &program());
    assert_eq!((inbox.address, inbox.bump), (address.to_bytes(), bump));
    assert_ne!(inbox.address, org.address);
}

#[test]
fn submission_is_located_under_the_address_of_its_organization() {
    let acme = Key::for_organization("acme");
    let parent = locate(&acme, &PROGRAM).unwrap();
    let found = locate(&Key::for_submission(&acme, 258), &PROGRAM).unwrap();
    let (address, bump) = Pubkey::find_program_address(
        &[b"submission", &parent.address, &258u64.to_le_bytes()],
        &program(),
    );
    assert_eq!((found.address, found.bump), (address.to_bytes(), bump));
    let next = locate(&Key::for_submission(&acme, 259), &PROGRAM).unwrap();
    assert_ne!(next.address, found.address);
    let (by_slug, _) = Pubkey::find_program_address(
        &[b"submission", b"acme", &258u64.to_le_bytes()],
        &program(),
    );
    assert_ne!(found.address, by_slug.to_bytes());
}

#[test]
fn message_is_located_under_the_identity_of_its_recipient() {
    let owner = Identity::new([5u8; 32]);
    let found = locate(&Key::for_message(&owner, 3), &PROGRAM).unwrap();
    let (address, bump) =
        Pubkey::find_program_address(&[b"dm", &[5u8; 32], &3u64.to_le_bytes()], &program());
    assert_eq!((found.address, found.bump), (address.to_bytes(), bump));
}

#[test]
fn location_depends_on_the_program() {
    let key = Key::for_proof(&[7u8; 32]);
    let here = locate(&key, &PROGRAM).unwrap();
    let there = locate(&key, &[1u8; 32]).unwrap();
    assert_ne!(here.address, there.address);
    assert_eq!(locate(&key, &PROGRAM), Some(here));
}

#[test]
fn slug_beyond_a_seed_has_no_location() {
    let long = "a".repeat(33);
    assert_eq!(locate(&Key::for_organization(&long), &PROGRAM), None);
    assert_eq!(locate(&Key::for_submission(&Key::for_organization(&long), 0), &PROGRAM), None);
    assert!(locate(&Key::for_organization(&"a".repeat(32)), &PROGRAM).is_some());
}

#[test]
fn context_can_carry_the_bump_of_the_location() {
    let hash = [7u8; 32];
    let key = Key::for_proof(&hash);
    let found = locate(&key, &PROGRAM).unwrap();
    let mut ledger = Ledger::new();
    let ctx = CreateProof { owner: Identity::new([1u8; 32]), bump: found.bump, now: 9 };
    assert_eq!(create_proof(&mut ledger, &ctx, hash), Ok(()));
    assert_eq!(ledger.proof_at(&key).unwrap().bump, found.bump);
}

#[test]
fn located_contexts_carry_the_bump_of_the_address() {
    let who = Identity::new([1u8; 32]);
    let hash = [7u8; 32];
    let proof = CreateProof::located(&PROGRAM, who, 5, &hash).unwrap();
    let (_, bump) = Pubkey::find_program_address(&[b"proof", &hash], &program());
    assert_eq!(proof, CreateProof { owner: who, bump, now: 5 });

    let org = CreateOrganization::located(&PROGRAM, who, 6, "acme").unwrap();
    let (address, bump) = Pubkey::find_program_address(&[b"org", b"acme"], &program());
    assert_eq!(org, CreateOrganization { admin: who, bump, now: 6 });

    let acme = Key::for_organization("acme");
    let tip = SubmitTip::located(&PROGRAM, &acme, 3, who, 7).unwrap();
    let (_, bump) = Pubkey::find_program_address(
        &[b"submission", address.as_ref(), &3u64.to_le_bytes()],
        &program(),
    );
    assert_eq!(tip, SubmitTip { organization: acme, submitter: who, bump, now: 7 });

    let inbox = ActivateInbox::located(&PROGRAM, who, 8).unwrap();
    let (_, bump) = Pubkey::find_program_address(&[b"inbox", &[1u8; 32]], &program());
    assert_eq!(inbox, ActivateInbox { owner: who, bump, now: 8 });

    let sender = Identity::new([2u8; 32]);
    let message = SendDirectMessage::located(&PROGRAM, &who, 4, sender, 9).unwrap();
    let (_, bump) =
        Pubkey::find_program_address(&[b"dm", &[1u8; 32], &4u64.to_le_bytes()], &program());
    assert_eq!(
        message,
        SendDirectMessage { recipient_inbox: Key::for_inbox(&who), sender, bump, now: 9 }
    );
}

#[test]
fn no_context_is_located_for_a_slug_beyond_a_seed() {
    let who = Identity::new([1u8; 32]);
    let long = "a".repeat(33);
    assert_eq!(CreateOrganization::located(&PROGRAM, who, 6, &long), None);
    assert_eq!(SubmitTip::located(&PROGRAM, &Key::for_organization(&long), 0, who, 7), None);
}

#[test]
fn records_made_with_located_contexts_hold_the_bumps_of_their_addresses() {
    let mut ledger = Ledger::new();
    let admin = Identity::new([1u8; 32]);
    let friend = Identity::new([2u8; 32]);

    let ctx = CreateOrganization::located(&PROGRAM, admin, 10, "acme").unwrap();
    assert_eq!(
        create_organization(
            &mut ledger,
            &ctx,
            "acme".to_string(),
            "Acme".to_string(),
            "Tips".to_string(),
            [0u8; 65]
        ),
        Ok(())
    );
    let acme = Key::for_organization("acme");
    assert_eq!(
        ledger.organization_at(&acme).unwrap().bump,
        locate(&acme, &PROGRAM).unwrap().bump
    );

    for n in 0u64..3 {
        let count = ledger.organization_at(&acme).unwrap().submission_count;
        assert_eq!(count, n);
        let ctx = SubmitTip::located(&PROGRAM, &acme, count, friend, 11).unwrap();
        assert_eq!(submit_tip(&mut ledger, &ctx, "pointer".to_string()), Ok(n));
        let key = Key::for_submission(&acme, n);
        assert_eq!(
            ledger.submission_at(&key).unwrap().bump,
            locate(&key, &PROGRAM).unwrap().bump
        );
    }

    let ctx = ActivateInbox::located(&PROGRAM, admin, 12).unwrap();
    assert_eq!(activate_inbox(&mut ledger, &ctx, [0u8; 65]), Ok(()));
    let inbox = Key::for_inbox(&admin);
    assert_eq!(ledger.inbox_at(&inbox).unwrap().bump, locate(&inbox, &PROGRAM).unwrap().bump);

    let ctx = SendDirectMessage::located(&PROGRAM, &admin, 0, friend, 13).unwrap();
    assert_eq!(send_direct_message(&mut ledger, &ctx, "pointer".to_string(), true), Ok(0));
    let key = Key::for_message(&admin, 0);
    assert_eq!(ledger.message_at(&key).unwrap().bump, locate(&key, &PROGRAM).unwrap().bump);
}
