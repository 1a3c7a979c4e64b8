use ledger_runtime::proof_of_existence::{Call, Config, Pallet};
use ledger_runtime::support::{Dispatch, DispatchError};
use ledger_runtime::system;

struct TestConfig;

impl Config for TestConfig {
    type Content = &'static str;

    fn lemma_content_laws() {}
}

impl system::Config for TestConfig {
    type AccountId = &'static str;
    type BlockNumber = u32;
    type Nonce = u32;

    fn lemma_account_id_laws() {}
}

#[test]
fn basic_proof_of_existence() {
    let mut poe = Pallet::<TestConfig>::new();

    let _ = poe.create_claim("alice", "alice is good");

    assert_eq!(poe.get_claim(&"alice is good"), Some(&"alice"));

    let res = poe.revoke_claim("bob", "my_document");

    assert_eq!(res.map_err(|e| e.message()), Err("claim does not exists"));

    // Nobody has claimed "my document" so far: this claim is the first.
    let res2 = poe.create_claim("alice", "my document");

    assert_ne!(res2.map_err(|e| e.message()), Err("Claim already exists"));
    assert_eq!(res2, Ok(()));
    assert_eq!(poe.get_claim(&"my document"), Some(&"alice"));

    let res3 = poe.create_claim("alice", "my document");

    assert_eq!(res3.map_err(|e| e.message()), Err("Claim already exists"));
}

#[test]
fn unclaimed_content_has_no_owner() {
    let mut poe = Pallet::<TestConfig>::new();
    assert_eq!(poe.get_claim(&"doc"), None);
    assert_eq!(poe.create_claim("alice", "doc"), Ok(()));
    assert_eq!(poe.get_claim(&"other doc"), None);
}

#[test]
fn second_claim_fails_and_owner_stays() {
    let mut poe = Pallet::<TestConfig>::new();
    assert_eq!(poe.create_claim("alice", "doc"), Ok(()));
    assert_eq!(poe.create_claim("bob", "doc"), Err(DispatchError::ClaimExists));
    assert_eq!(poe.get_claim(&"doc"), Some(&"alice"));
    assert_eq!(poe.create_claim("alice", "doc"), Err(DispatchError::ClaimExists));
    assert_eq!(poe.get_claim(&"doc"), Some(&"alice"));
}

#[test]
fn only_the_owner_revokes() {
    let mut poe = Pallet::<TestConfig>::new();
    assert_eq!(poe.create_claim("alice", "doc"), Ok(()));
    assert_eq!(poe.revoke_claim("bob", "doc"), Err(DispatchError::NotClaimOwner));
    assert_eq!(poe.get_claim(&"doc"), Some(&"alice"));
    assert_eq!(poe.revoke_claim("alice", "doc"), Ok(()));
    assert_eq!(poe.get_claim(&"doc"), None);
}

#[test]
fn revoking_unclaimed_content_fails() {
    let mut poe = Pallet::<TestConfig>::new();
    assert_eq!(poe.revoke_claim("alice", "doc"), Err(DispatchError::ClaimNotFound));
    assert_eq!(poe.create_claim("alice", "doc"), Ok(()));
    assert_eq!(poe.revoke_claim("alice", "doc"), Ok(()));
    assert_eq!(poe.revoke_claim("alice", "doc"), Err(DispatchError::ClaimNotFound));
    assert_eq!(poe.get_claim(&"doc"), None);
}

#[test]
fn revoked_content_can_be_claimed_again() {
    let mut poe = Pallet::<TestConfig>::new();
    assert_eq!(poe.create_claim("alice", "doc"), Ok(()));
    assert_eq!(poe.revoke_claim("alice", "doc"), Ok(()));
    assert_eq!(poe.create_claim("bob", "doc"), Ok(()));
    assert_eq!(poe.get_claim(&"doc"), Some(&"bob"));
}

#[test]
fn claims_on_other_content_stay() {
    let mut poe = Pallet::<TestConfig>::new();
    assert_eq!(poe.create_claim("alice", "one"), Ok(()));
    assert_eq!(poe.create_claim("bob", "two"), Ok(()));
    assert_eq!(poe.revoke_claim("bob", "two"), Ok(()));
    assert_eq!(poe.get_claim(&"one"), Some(&"alice"));
    assert_eq!(poe.get_claim(&"two"), None);
}

#[test]
fn dispatch_of_registry_calls() {
    let mut poe = Pallet::<TestConfig>::new();
    assert_eq!(poe.dispatch("alice", Call::CreateClaim { claim: "doc" }), Ok(()));
    assert_eq!(
        poe.dispatch("bob", Call::CreateClaim { claim: "doc" }),
        Err(DispatchError::ClaimExists)
    );
    assert_eq!(
        poe.dispatch("bob", Call::RevokeClaim { claim: "doc" }),
        Err(DispatchError::NotClaimOwner)
    );
    assert_eq!(
        poe.dispatch("bob", Call::RevokeClaim { claim: "none" }),
        Err(DispatchError::ClaimNotFound)
    );
    assert_eq!(poe.get_claim(&"doc"), Some(&"alice"));
    assert_eq!(poe.dispatch("alice", Call::RevokeClaim { claim: "doc" }), Ok(()));
    assert_eq!(poe.get_claim(&"doc"), None);
}
