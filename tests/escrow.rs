use milkypay::{Address, AddressKind, Escrow, EscrowContract, EscrowError, Event, Ledger, TransferError};
use soroban_sdk::Env;

fn account(n: u8) -> Address {
    Address { kind: AddressKind::Account, key: [n; 32] }
}

fn contract(n: u8) -> Address {
    Address { kind: AddressKind::Contract, key: [n; 32] }
}

fn secret(text: &[u8]) -> [u8; 32] {
    let mut s = [0u8; 32];
    s[..text.len()].copy_from_slice(text);
    s
}

fn digest_of(preimage: &[u8; 32]) -> [u8; 32] {
    let env = Env::default();
    let bytes = soroban_sdk::Bytes::from_array(&env, preimage);
    env.crypto().sha256(&bytes).to_array()
}

struct World {
    env: Env,
    escrow: EscrowContract,
    ledger: Ledger,
    sender: Address,
    claimant: Address,
    asset: Address,
}

const T: u64 = 1_000;

fn world() -> World {
    let sender = account(1);
    let claimant = account(2);
    let asset = contract(9);
    let mut ledger = Ledger::new();
    ledger.mint(&asset, &sender, 5_000).unwrap();
    World { env: Env::default(), escrow: EscrowContract::new(contract(7)), ledger, sender, claimant, asset }
}

fn create_pay1(w: &mut World) -> Result<Event, EscrowError> {
    let signers = vec![w.sender];
    let h = digest_of(&secret(b"abc"));
    w.escrow.create_escrow(&mut w.ledger, &signers, w.sender, b"pay1".to_vec(), w.asset, h, 1000, T + 100)
}

#[test]
fn create_then_get_returns_inputs() {
    let mut w = world();
    let r = create_pay1(&mut w);
    assert_eq!(r, Ok(Event::EscrowCreated { sender: w.sender, asset: w.asset, amount: 1000, expiry: T + 100 }));
    let got = w.escrow.get_escrow(&b"pay1".to_vec()).unwrap();
    let expected = Escrow {
        sender: w.sender,
        asset: w.asset,
        amount: 1000,
        pin_hash: digest_of(&secret(b"abc")),
        expiry: T + 100,
        claimed: false,
    };
    assert_eq!(got, expected);
    assert_eq!(w.ledger.balance(&w.asset, &w.sender), 4_000);
    assert_eq!(w.ledger.balance(&w.asset, &w.escrow.address()), 1_000);
}

#[test]
fn get_unknown_is_none() {
    let w = world();
    assert_eq!(w.escrow.get_escrow(&b"nope".to_vec()), None);
}

#[test]
fn duplicate_create_fails() {
    let mut w = world();
    create_pay1(&mut w).unwrap();
    let signers = vec![w.sender];
    let r = w.escrow.create_escrow(&mut w.ledger, &signers, w.sender, b"pay1".to_vec(), w.asset, [5u8; 32], 1, T + 5);
    assert_eq!(r, Err(EscrowError::DuplicateIdentifier));
    assert_eq!(w.ledger.balance(&w.asset, &w.sender), 4_000);
    assert_eq!(w.escrow.get_escrow(&b"pay1".to_vec()).unwrap().amount, 1000);
}

#[test]
fn create_without_authorization_fails() {
    let mut w = world();
    let signers = vec![w.claimant];
    let r = w.escrow.create_escrow(&mut w.ledger, &signers, w.sender, b"pay1".to_vec(), w.asset, [0u8; 32], 10, T);
    assert_eq!(r, Err(EscrowError::Unauthorized));
    assert_eq!(w.escrow.get_escrow(&b"pay1".to_vec()), None);
}

#[test]
fn create_with_insufficient_balance_fails() {
    let mut w = world();
    let signers = vec![w.sender];
    let r = w.escrow.create_escrow(&mut w.ledger, &signers, w.sender, b"big".to_vec(), w.asset, [0u8; 32], 5_001, T);
    assert_eq!(r, Err(EscrowError::Transfer(TransferError::InsufficientBalance)));
    assert_eq!(w.escrow.get_escrow(&b"big".to_vec()), None);
    assert_eq!(w.ledger.balance(&w.asset, &w.sender), 5_000);
}

#[test]
fn create_with_negative_amount_fails() {
    let mut w = world();
    let signers = vec![w.sender];
    let r = w.escrow.create_escrow(&mut w.ledger, &signers, w.sender, b"neg".to_vec(), w.asset, [0u8; 32], -1, T);
    assert_eq!(r, Err(EscrowError::Transfer(TransferError::NegativeAmount)));
}

#[test]
fn claim_with_secret_succeeds_once() {
    let mut w = world();
    create_pay1(&mut w).unwrap();
    let signers = vec![w.claimant];
    let r = w.escrow.claim_escrow(&w.env, &mut w.ledger, &signers, w.claimant, &b"pay1".to_vec(), secret(b"abc"));
    assert_eq!(r, Ok(Event::EscrowClaimed { claimant: w.claimant }));
    assert_eq!(w.ledger.balance(&w.asset, &w.claimant), 1000);
    assert_eq!(w.ledger.balance(&w.asset, &w.escrow.address()), 0);
    assert!(w.escrow.get_escrow(&b"pay1".to_vec()).unwrap().claimed);
    let again = w.escrow.claim_escrow(&w.env, &mut w.ledger, &signers, w.claimant, &b"pay1".to_vec(), secret(b"abc"));
    assert_eq!(again, Err(EscrowError::AlreadyResolved));
    assert_eq!(w.ledger.balance(&w.asset, &w.claimant), 1000);
    let sender_signs = vec![w.sender];
    let refund = w.escrow.refund_escrow(&mut w.ledger, &sender_signs, w.sender, &b"pay1".to_vec(), T + 100);
    assert_eq!(refund, Err(EscrowError::AlreadyResolved));
}

#[test]
fn claim_with_wrong_secret_fails() {
    let mut w = world();
    create_pay1(&mut w).unwrap();
    let signers = vec![w.claimant];
    let r = w.escrow.claim_escrow(&w.env, &mut w.ledger, &signers, w.claimant, &b"pay1".to_vec(), secret(b"xyz"));
    assert_eq!(r, Err(EscrowError::InvalidPreimage));
    let rec = w.escrow.get_escrow(&b"pay1".to_vec()).unwrap();
    assert!(!rec.claimed);
    assert_eq!(rec.amount, 1000);
    assert_eq!(w.ledger.balance(&w.asset, &w.claimant), 0);
}

#[test]
fn claim_with_the_hash_itself_fails() {
    // the lock is the digest of the secret, never the secret
    let mut w = world();
    create_pay1(&mut w).unwrap();
    let signers = vec![w.claimant];
    let h = digest_of(&secret(b"abc"));
    let r = w.escrow.claim_escrow(&w.env, &mut w.ledger, &signers, w.claimant, &b"pay1".to_vec(), h);
    assert_eq!(r, Err(EscrowError::InvalidPreimage));
}

#[test]
fn digest_of_zero_preimage_unlocks_known_hash() {
    let mut w = world();
    let h: [u8; 32] = [
        0x66, 0x68, 0x7a, 0xad, 0xf8, 0x62, 0xbd, 0x77, 0x6c, 0x8f, 0xc1, 0x8b, 0x8e, 0x9f, 0x8e, 0x20,
        0x08, 0x97, 0x14, 0x85, 0x6e, 0xe2, 0x33, 0xb3, 0x90, 0x2a, 0x59, 0x1d, 0x0d, 0x5f, 0x29, 0x25,
    ];
    let signers = vec![w.sender];
    w.escrow.create_escrow(&mut w.ledger, &signers, w.sender, b"zero".to_vec(), w.asset, h, 10, T).unwrap();
    let claimant_signs = vec![w.claimant];
    let r = w.escrow.claim_escrow(&w.env, &mut w.ledger, &claimant_signs, w.claimant, &b"zero".to_vec(), [0u8; 32]);
    assert_eq!(r, Ok(Event::EscrowClaimed { claimant: w.claimant }));
}

#[test]
fn claim_with_digest_checks_each_case() {
    let mut w = world();
    create_pay1(&mut w).unwrap();
    let id = b"pay1".to_vec();
    let h = digest_of(&secret(b"abc"));
    let none: Vec<Address> = vec![];
    assert_eq!(w.escrow.claim_with_digest(&mut w.ledger, &none, w.claimant, &id, &h), Err(EscrowError::Unauthorized));
    let signers = vec![w.claimant];
    assert_eq!(w.escrow.claim_with_digest(&mut w.ledger, &signers, w.claimant, &b"other".to_vec(), &h), Err(EscrowError::NotFound));
    assert_eq!(w.escrow.claim_with_digest(&mut w.ledger, &signers, w.claimant, &id, &[1u8; 32]), Err(EscrowError::InvalidPreimage));
    assert_eq!(w.escrow.claim_with_digest(&mut w.ledger, &signers, w.claimant, &id, &h), Ok(Event::EscrowClaimed { claimant: w.claimant }));
    assert_eq!(w.escrow.claim_with_digest(&mut w.ledger, &signers, w.claimant, &id, &h), Err(EscrowError::AlreadyResolved));
}

#[test]
fn refund_before_expiry_fails() {
    let mut w = world();
    create_pay1(&mut w).unwrap();
    let signers = vec![w.sender];
    let r = w.escrow.refund_escrow(&mut w.ledger, &signers, w.sender, &b"pay1".to_vec(), T + 99);
    assert_eq!(r, Err(EscrowError::NotYetExpired));
    assert!(!w.escrow.get_escrow(&b"pay1".to_vec()).unwrap().claimed);
}

#[test]
fn refund_after_expiry_by_sender_succeeds() {
    let mut w = world();
    create_pay1(&mut w).unwrap();
    let other = vec![w.claimant];
    let by_other = w.escrow.refund_escrow(&mut w.ledger, &other, w.claimant, &b"pay1".to_vec(), T + 100);
    assert_eq!(by_other, Err(EscrowError::WrongSender));
    let signers = vec![w.sender];
    let r = w.escrow.refund_escrow(&mut w.ledger, &signers, w.sender, &b"pay1".to_vec(), T + 100);
    assert_eq!(r, Ok(Event::EscrowRefunded));
    assert_eq!(w.ledger.balance(&w.asset, &w.sender), 5_000);
    assert_eq!(w.ledger.balance(&w.asset, &w.escrow.address()), 0);
    assert!(w.escrow.get_escrow(&b"pay1".to_vec()).unwrap().claimed);
    let again = w.escrow.refund_escrow(&mut w.ledger, &signers, w.sender, &b"pay1".to_vec(), T + 200);
    assert_eq!(again, Err(EscrowError::AlreadyResolved));
}

#[test]
fn refund_errors() {
    let mut w = world();
    create_pay1(&mut w).unwrap();
    let signers = vec![w.sender];
    assert_eq!(w.escrow.refund_escrow(&mut w.ledger, &signers, w.sender, &b"none".to_vec(), T + 100), Err(EscrowError::NotFound));
    let nobody: Vec<Address> = vec![];
    assert_eq!(w.escrow.refund_escrow(&mut w.ledger, &nobody, w.sender, &b"pay1".to_vec(), T + 100), Err(EscrowError::Unauthorized));
}

#[test]
fn custody_matches_unresolved_amounts() {
    let mut w = world();
    let other_asset = contract(8);
    w.ledger.mint(&other_asset, &w.sender, 300).unwrap();
    let signers = vec![w.sender];
    let me = w.escrow.address();
    w.escrow.create_escrow(&mut w.ledger, &signers, w.sender, b"a".to_vec(), w.asset, [1u8; 32], 100, T).unwrap();
    w.escrow.create_escrow(&mut w.ledger, &signers, w.sender, b"b".to_vec(), w.asset, [2u8; 32], 250, T).unwrap();
    w.escrow.create_escrow(&mut w.ledger, &signers, w.sender, b"c".to_vec(), other_asset, [3u8; 32], 300, T).unwrap();
    assert_eq!(w.ledger.balance(&w.asset, &me), 350);
    assert_eq!(w.ledger.balance(&other_asset, &me), 300);
    w.escrow.refund_escrow(&mut w.ledger, &signers, w.sender, &b"b".to_vec(), T).unwrap();
    assert_eq!(w.ledger.balance(&w.asset, &me), 100);
    let claimant_signs = vec![w.claimant];
    w.escrow.claim_with_digest(&mut w.ledger, &claimant_signs, w.claimant, &b"c".to_vec(), &[3u8; 32]).unwrap();
    assert_eq!(w.ledger.balance(&other_asset, &me), 0);
    assert_eq!(w.ledger.balance(&other_asset, &w.claimant), 300);
}

#[test]
fn zero_amount_escrow_is_allowed() {
    let mut w = world();
    let signers = vec![w.sender];
    let r = w.escrow.create_escrow(&mut w.ledger, &signers, w.sender, b"z".to_vec(), w.asset, [0u8; 32], 0, 0);
    assert!(r.is_ok());
    assert_eq!(w.escrow.refund_escrow(&mut w.ledger, &signers, w.sender, &b"z".to_vec(), 0), Ok(Event::EscrowRefunded));
}

#[test]
fn ledger_transfer_rules() {
    let mut l = Ledger::new();
    let a = contract(3);
    let x = account(4);
    let y = account(5);
    assert_eq!(l.mint(&a, &x, -1), Err(TransferError::NegativeAmount));
    l.mint(&a, &x, 10).unwrap();
    assert_eq!(l.transfer(&a, &x, &y, 11), Err(TransferError::InsufficientBalance));
    l.mint(&a, &y, i128::MAX).unwrap();
    assert_eq!(l.transfer(&a, &x, &y, 1), Err(TransferError::BalanceOverflow));
    assert_eq!(l.mint(&a, &y, 1), Err(TransferError::BalanceOverflow));
    assert_eq!(l.transfer(&a, &x, &x, 10), Ok(()));
    assert_eq!(l.balance(&a, &x), 10);
}

#[test]
fn address_and_bytes_equality() {
    assert!(milkypay::same_address(&account(1), &account(1)));
    assert!(!milkypay::same_address(&account(1), &contract(1)));
    assert!(!milkypay::same_address(&account(1), &account(2)));
    assert!(milkypay::is_authorized(&vec![account(2), account(1)], &account(1)));
    assert!(!milkypay::is_authorized(&vec![account(2)], &account(1)));
    assert!(milkypay::same_bytes(&b"pay1".to_vec(), &b"pay1".to_vec()));
    assert!(!milkypay::same_bytes(&b"pay1".to_vec(), &b"pay2".to_vec()));
    assert!(!milkypay::same_bytes(&b"pay".to_vec(), &b"pay1".to_vec()));
    assert_eq!(milkypay::copy_bytes(&b"xy".to_vec()), b"xy".to_vec());
    assert!(milkypay::same_digest(&[4u8; 32], &[4u8; 32]));
    assert!(!milkypay::same_digest(&[4u8; 32], &[5u8; 32]));
}
