use mini_runtime::balances;
use mini_runtime::proof_of_existence;
use mini_runtime::support::DispatchError;
use mini_runtime::system;

#[test]
fn init_balances() {
    let mut pallet = balances::Pallet::new();
    pallet.set_balance(&"Alice".to_string(), 100);
    pallet.set_balance(&"Bob".to_string(), 200);

    assert_eq!(pallet.get_balance(&"Alice".to_string()), 100);
    assert_eq!(pallet.get_balance(&"Bob".to_string()), 200);
    assert_eq!(pallet.get_balance(&"Charlie".to_string()), 0);
}

#[test]
fn transfer_success() {
    let mut pallet = balances::Pallet::new();
    pallet.set_balance(&"Alice".to_string(), 100);
    pallet.set_balance(&"Bob".to_string(), 50);

    assert!(pallet
        .transfer("Alice".to_string(), "Bob".to_string(), 30)
        .is_ok());
    assert_eq!(pallet.get_balance(&"Alice".to_string()), 70);
    assert_eq!(pallet.get_balance(&"Bob".to_string()), 80);
}

#[test]
fn transfer_insufficient_balance() {
    let mut pallet = balances::Pallet::new();
    pallet.set_balance(&"Alice".to_string(), 100);

    let amount: u128 = 150;

    let result = pallet.transfer("Alice".to_string(), "Bob".to_string(), amount);
    assert!(result.is_err());
}

#[test]
fn transfer_insufficient_balance_reason() {
    let mut pallet = balances::Pallet::new();
    pallet.set_balance(&"Alice".to_string(), 100);

    let result = pallet.transfer("Alice".to_string(), "Bob".to_string(), 101);
    assert_eq!(result, Err(DispatchError::InsufficientBalance));
    assert_eq!(pallet.get_balance(&"Alice".to_string()), 100);
    assert_eq!(pallet.get_balance(&"Bob".to_string()), 0);
}

#[test]
fn transfer_overflow_is_rejected() {
    let mut pallet = balances::Pallet::new();
    pallet.set_balance(&"Alice".to_string(), 5);
    pallet.set_balance(&"Bob".to_string(), u128::MAX);

    let result = pallet.transfer("Alice".to_string(), "Bob".to_string(), 1);
    assert_eq!(result, Err(DispatchError::BalanceOverflow));
    assert_eq!(pallet.get_balance(&"Alice".to_string()), 5);
    assert_eq!(pallet.get_balance(&"Bob".to_string()), u128::MAX);
}

#[test]
fn transfer_conserves_the_two_balances() {
    let mut pallet = balances::Pallet::new();
    pallet.set_balance(&"Alice".to_string(), 100);
    pallet.set_balance(&"Bob".to_string(), 40);

    assert!(pallet
        .transfer("Alice".to_string(), "Bob".to_string(), 25)
        .is_ok());
    let alice = pallet.get_balance(&"Alice".to_string());
    let bob = pallet.get_balance(&"Bob".to_string());
    assert_eq!(alice, 75);
    assert_eq!(bob, 65);
    assert_eq!(alice + bob, 140);
}

#[test]
fn self_transfer_keeps_the_balance() {
    let mut pallet = balances::Pallet::new();
    pallet.set_balance(&"Alice".to_string(), 100);

    assert!(pallet
        .transfer("Alice".to_string(), "Alice".to_string(), 40)
        .is_ok());
    assert_eq!(pallet.get_balance(&"Alice".to_string()), 100);

    let result = pallet.transfer("Alice".to_string(), "Alice".to_string(), 101);
    assert_eq!(result, Err(DispatchError::InsufficientBalance));
    assert_eq!(pallet.get_balance(&"Alice".to_string()), 100);
}

#[test]
fn basic_proof_of_existence() {
    let mut pallet = proof_of_existence::Pallet::new();
    let alice = "Alice".to_string();
    let claim = "Unique Document Hash".to_string();

    assert!(pallet.create_claim(alice.clone(), claim.clone()).is_ok());
    assert!(pallet.get_claim(&claim).is_some());
    assert!(pallet.create_claim(alice.clone(), claim.clone()).is_err());
    assert!(pallet.revoke_claim(alice.clone(), claim.clone()).is_ok());
    assert!(pallet.get_claim(&claim).is_none());
}

#[test]
fn duplicate_claim_fails_for_any_caller() {
    let mut pallet = proof_of_existence::Pallet::new();
    let claim = "Shared Document".to_string();

    assert!(pallet
        .create_claim("Alice".to_string(), claim.clone())
        .is_ok());
    assert_eq!(pallet.get_claim(&claim), Some(&"Alice".to_string()));
    assert_eq!(
        pallet.create_claim("Bob".to_string(), claim.clone()),
        Err(DispatchError::ClaimAlreadyExists)
    );
    assert_eq!(
        pallet.create_claim("Alice".to_string(), claim.clone()),
        Err(DispatchError::ClaimAlreadyExists)
    );
    assert_eq!(pallet.get_claim(&claim), Some(&"Alice".to_string()));
}

#[test]
fn revoke_claim_owner_rules() {
    let mut pallet = proof_of_existence::Pallet::new();
    let claim = "Owned Document".to_string();

    assert!(pallet
        .create_claim("Alice".to_string(), claim.clone())
        .is_ok());
    assert_eq!(
        pallet.revoke_claim("Bob".to_string(), claim.clone()),
        Err(DispatchError::NotClaimOwner)
    );
    assert_eq!(pallet.get_claim(&claim), Some(&"Alice".to_string()));

    assert!(pallet.revoke_claim("Alice".to_string(), claim.clone()).is_ok());
    assert!(pallet.get_claim(&claim).is_none());
    assert_eq!(
        pallet.revoke_claim("Alice".to_string(), claim.clone()),
        Err(DispatchError::ClaimNotFound)
    );
}

#[test]
fn init_system() {
    let pallet = system::Pallet::new();
    assert_eq!(pallet.block_number(), 0);
    assert_eq!(pallet.get_nonce(&"Alice".to_string()), 0);
}

#[test]
fn increment_block_number() {
    let mut pallet = system::Pallet::new();
    pallet.inc_block_number();
    assert_eq!(pallet.block_number(), 1);
}

#[test]
fn increment_nonce() {
    let mut pallet = system::Pallet::new();
    let alice = "Alice".to_string();
    pallet.inc_nonce(&alice);
    assert_eq!(pallet.get_nonce(&alice), 1);
    pallet.inc_nonce(&alice);
    assert_eq!(pallet.get_nonce(&alice), 2);
}

#[test]
fn nonce_counts_every_increment() {
    let mut pallet = system::Pallet::new();
    let alice = "Alice".to_string();
    for _ in 0..5 {
        pallet.inc_nonce(&alice);
    }
    assert_eq!(pallet.get_nonce(&alice), 5);
    assert_eq!(pallet.get_nonce(&"Bob".to_string()), 0);
}

#[test]
fn error_reason_texts() {
    assert_eq!(
        DispatchError::InsufficientBalance.reason(),
        "Insufficient balance"
    );
    assert_eq!(
        DispatchError::BalanceOverflow.reason(),
        "Overflow when adding to balance"
    );
    assert_eq!(
        DispatchError::ClaimAlreadyExists.reason(),
        "Claim already exists"
    );
    assert_eq!(DispatchError::ClaimNotFound.reason(), "Claim does not exist");
    assert_eq!(
        DispatchError::NotClaimOwner.reason(),
        "Caller does not own the claim"
    );
    assert_eq!(
        DispatchError::BlockNumberMismatch.reason(),
        "Block number mismatch"
    );
}
