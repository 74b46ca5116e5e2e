use substrate_course::origin::Origin;
use substrate_course::poe::{
    create_claim, move_claim, revoke_claim, DispatchError, Error, Event, Poe,
};

/// The `StringLimit` of the test runtime.
const STRING_LIMIT: u32 = 50;

/// The current block of the test runtime.
const BLOCK_NUMBER: u64 = 1;

fn new_test_ext() -> Poe {
    Poe::new(STRING_LIMIT)
}

#[test]
fn create_claim_success() {
    let mut poe = new_test_ext();
    let claim = vec![1, 2, 3];
    assert_eq!(create_claim(&mut poe, Origin::Signed(1), claim.clone(), BLOCK_NUMBER), Ok(()));
    assert_eq!(poe.proofs(&claim), Some((1, BLOCK_NUMBER)));
}

#[test]
fn create_claim_proof_already_exist() {
    let mut poe = new_test_ext();
    let claim = vec![1, 2, 3];
    assert_eq!(create_claim(&mut poe, Origin::Signed(1), claim.clone(), BLOCK_NUMBER), Ok(()));
    let before = poe.clone();
    assert_eq!(
        create_claim(&mut poe, Origin::Signed(1), claim.clone(), BLOCK_NUMBER),
        Err(DispatchError::Module(Error::ProofAlreadyExist))
    );
    assert_eq!(poe, before);
}

#[test]
fn revoke_claim_success() {
    let mut poe = new_test_ext();
    let claim = vec![1, 2, 3];
    assert_eq!(create_claim(&mut poe, Origin::Signed(1), claim.clone(), BLOCK_NUMBER), Ok(()));
    assert_eq!(revoke_claim(&mut poe, Origin::Signed(1), claim.clone()), Ok(()));
    assert_eq!(poe.proofs(&claim), None);
}

#[test]
fn revoke_claim_claim_not_exist() {
    let mut poe = new_test_ext();
    let claim = vec![1, 2, 3];
    let before = poe.clone();
    assert_eq!(
        revoke_claim(&mut poe, Origin::Signed(1), claim),
        Err(DispatchError::Module(Error::ClaimNotExist))
    );
    assert_eq!(poe, before);
}

#[test]
fn revoke_claim_not_claim_owner() {
    let mut poe = new_test_ext();
    let claim = vec![1, 2, 3];
    assert_eq!(create_claim(&mut poe, Origin::Signed(1), claim.clone(), BLOCK_NUMBER), Ok(()));
    let before = poe.clone();
    assert_eq!(
        revoke_claim(&mut poe, Origin::Signed(2), claim),
        Err(DispatchError::Module(Error::NotClaimOwner))
    );
    assert_eq!(poe, before);
}

#[test]
fn transfer_claim_success() {
    let mut poe = new_test_ext();
    let claim = vec![1, 2, 3];
    assert_eq!(create_claim(&mut poe, Origin::Signed(1), claim.clone(), BLOCK_NUMBER), Ok(()));
    assert_eq!(move_claim(&mut poe, Origin::Signed(1), claim.clone(), 2, BLOCK_NUMBER), Ok(()));
    assert_eq!(poe.proofs(&claim), Some((2, BLOCK_NUMBER)));
}

#[test]
fn transfer_claim_claim_not_exist() {
    let mut poe = new_test_ext();
    let claim = vec![1, 2, 3];
    let before = poe.clone();
    assert_eq!(
        move_claim(&mut poe, Origin::Signed(1), claim, 2, BLOCK_NUMBER),
        Err(DispatchError::Module(Error::ClaimNotExist))
    );
    assert_eq!(poe, before);
}

#[test]
fn transfer_claim_not_claim_owner() {
    let mut poe = new_test_ext();
    let claim = vec![1, 2, 3];
    assert_eq!(create_claim(&mut poe, Origin::Signed(1), claim.clone(), BLOCK_NUMBER), Ok(()));
    let before = poe.clone();
    assert_eq!(
        move_claim(&mut poe, Origin::Signed(2), claim, 2, BLOCK_NUMBER),
        Err(DispatchError::Module(Error::NotClaimOwner))
    );
    assert_eq!(poe, before);
}

#[test]
fn create_claim_claim_too_long() {
    let mut poe = new_test_ext();
    let claim = vec![1; 51];
    let before = poe.clone();
    assert_eq!(
        create_claim(&mut poe, Origin::Signed(1), claim, BLOCK_NUMBER),
        Err(DispatchError::Module(Error::BadMetadata))
    );
    assert_eq!(poe, before);
}

#[test]
fn claim_at_the_limit_is_accepted() {
    let mut poe = new_test_ext();
    let claim = vec![1; 50];
    assert_eq!(create_claim(&mut poe, Origin::Signed(1), claim.clone(), BLOCK_NUMBER), Ok(()));
    assert_eq!(poe.proofs(&claim), Some((1, BLOCK_NUMBER)));
}

#[test]
fn unsigned_and_root_origins_are_refused() {
    let mut poe = new_test_ext();
    let claim = vec![9];
    assert_eq!(
        create_claim(&mut poe, Origin::Unsigned, claim.clone(), BLOCK_NUMBER),
        Err(DispatchError::BadOrigin)
    );
    assert_eq!(
        create_claim(&mut poe, Origin::Root, claim.clone(), BLOCK_NUMBER),
        Err(DispatchError::BadOrigin)
    );
    assert_eq!(poe.proofs(&claim), None);
}

#[test]
fn revoke_then_create_again() {
    let mut poe = new_test_ext();
    let claim = vec![4, 5];
    assert_eq!(create_claim(&mut poe, Origin::Signed(1), claim.clone(), 3), Ok(()));
    assert_eq!(revoke_claim(&mut poe, Origin::Signed(1), claim.clone()), Ok(()));
    assert_eq!(create_claim(&mut poe, Origin::Signed(2), claim.clone(), 7), Ok(()));
    assert_eq!(poe.proofs(&claim), Some((2, 7)));
}

#[test]
fn claims_are_kept_apart() {
    let mut poe = new_test_ext();
    assert_eq!(create_claim(&mut poe, Origin::Signed(1), vec![1], 1), Ok(()));
    assert_eq!(create_claim(&mut poe, Origin::Signed(2), vec![1, 0], 2), Ok(()));
    assert_eq!(create_claim(&mut poe, Origin::Signed(3), vec![], 3), Ok(()));
    assert_eq!(revoke_claim(&mut poe, Origin::Signed(2), vec![1, 0]), Ok(()));
    assert_eq!(poe.proofs(&vec![1]), Some((1, 1)));
    assert_eq!(poe.proofs(&vec![1, 0]), None);
    assert_eq!(poe.proofs(&vec![]), Some((3, 3)));
}

#[test]
fn move_claim_records_event_and_new_block() {
    let mut poe = new_test_ext();
    let claim = vec![7, 7];
    assert_eq!(create_claim(&mut poe, Origin::Signed(1), claim.clone(), 1), Ok(()));
    assert_eq!(move_claim(&mut poe, Origin::Signed(1), claim.clone(), 3, 9), Ok(()));
    assert_eq!(poe.proofs(&claim), Some((3, 9)));
    assert_eq!(
        poe.events().clone(),
        vec![Event::ClaimCreated(1, claim.clone()), Event::ClaimMoved(1, claim.clone(), 3)]
    );
    assert_eq!(
        move_claim(&mut poe, Origin::Signed(1), claim.clone(), 2, 10),
        Err(DispatchError::Module(Error::NotClaimOwner))
    );
}
