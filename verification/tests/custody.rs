use vault_anchor::Address;
use vault_anchor::Custody;
use vault_anchor::VaultError;
use vault_anchor::signing_seeds;

fn addr(byte: u8) -> Address {
    Address::new(vec![byte; 32]).unwrap()
}

fn initialized_world(user_balance: u64) -> (Custody, Address, Address) {
    let mut c = Custody::new(addr(7), addr(9), user_balance);
    let ev = c.initialize().unwrap();
    (c, ev.vault_state, ev.vault)
}

#[test]
fn address_new_accepts_only_32_bytes() {
    assert!(Address::new(vec![1u8; 32]).is_some());
    assert!(Address::new(vec![1u8; 31]).is_none());
    assert!(Address::new(vec![1u8; 33]).is_none());
    assert!(Address::new(Vec::new()).is_none());
}

#[test]
fn initialize_creates_record_and_fresh_addresses() {
    let user = addr(7);
    let mut c = Custody::new(addr(7), addr(9), 1_000);
    assert!(c.record().is_none());
    let ev = c.initialize().unwrap();
    assert!(ev.user == user);
    // the derived addresses are new addresses, not the seeds handed in
    assert!(ev.vault_state != user);
    assert!(ev.vault_state != addr(9));
    assert!(ev.vault != ev.vault_state);
    assert!(ev.vault != user);
    assert!(c.record().is_some());
    assert_eq!(c.vault_balance(), 0);
    assert_eq!(c.user_balance(), 1_000);
}

#[test]
fn initialize_twice_fails_and_keeps_the_record() {
    let (mut c, _sa, _va) = initialized_world(1_000);
    let first = c.record().unwrap();
    let second = c.initialize();
    assert!(matches!(second, Err(VaultError::DuplicateRecord)));
    assert_eq!(c.record().unwrap(), first);
    assert_eq!(c.user_balance(), 1_000);
    assert_eq!(c.vault_balance(), 0);
}

#[test]
fn derivation_is_deterministic_across_worlds() {
    let (mut a, sa_a, va_a) = initialized_world(500);
    let (mut b, sa_b, va_b) = initialized_world(500);
    assert!(sa_a == sa_b);
    assert!(va_a == va_b);
    assert_eq!(a.record().unwrap(), b.record().unwrap());
    // the proofs stored in one world authorize operations in the other
    a.deposit(&sa_b, &va_b, 10).unwrap();
    b.deposit(&sa_a, &va_a, 10).unwrap();
    assert_eq!(a.vault_balance(), 10);
    assert_eq!(b.vault_balance(), 10);
}

#[test]
fn stored_proofs_rederive_the_initialize_addresses() {
    let (mut c, sa, va) = initialized_world(300);
    // every operation re-derives the supplied addresses from the stored
    // proof bytes before moving balance; success shows they reproduce the
    // addresses computed at initialize time
    c.deposit(&sa, &va, 200).unwrap();
    c.withdraw(&sa, &va, 150).unwrap();
    c.close_account(&sa, &va).unwrap();
}

#[test]
fn deposit_without_record_fails_with_missing_record() {
    let mut c = Custody::new(addr(7), addr(9), 100);
    let r = c.deposit(&addr(1), &addr(2), 10);
    assert!(matches!(r, Err(VaultError::MissingRecord)));
    assert_eq!(c.user_balance(), 100);
    assert_eq!(c.vault_balance(), 0);
}

#[test]
fn deposit_more_than_identity_balance_fails() {
    let (mut c, sa, va) = initialized_world(50);
    let r = c.deposit(&sa, &va, 51);
    assert!(matches!(r, Err(VaultError::InsufficientBalance)));
    assert_eq!(c.user_balance(), 50);
    assert_eq!(c.vault_balance(), 0);
}

#[test]
fn deposit_into_a_never_funded_vault_succeeds() {
    let (mut c, sa, va) = initialized_world(100);
    let ev = c.deposit(&sa, &va, 100).unwrap();
    assert_eq!(ev.amount, 100);
    assert!(ev.user == addr(7));
    assert_eq!(c.vault_balance(), 100);
    assert_eq!(c.user_balance(), 0);
}

#[test]
fn withdraw_above_vault_balance_fails_and_changes_nothing() {
    let (mut c, sa, va) = initialized_world(1_000);
    c.deposit(&sa, &va, 60).unwrap();
    let r = c.withdraw(&sa, &va, 61);
    assert!(matches!(r, Err(VaultError::InsufficientBalance)));
    assert_eq!(c.vault_balance(), 60);
    assert_eq!(c.user_balance(), 940);
}

#[test]
fn wrong_vault_address_fails_withdraw_without_moving_balance() {
    let (mut c, sa, va) = initialized_world(1_000);
    c.deposit(&sa, &va, 100).unwrap();
    let wrong = addr(0);
    let r = c.withdraw(&sa, &wrong, 10);
    assert!(matches!(r, Err(VaultError::DerivationMismatch)));
    assert_eq!(c.vault_balance(), 100);
    assert_eq!(c.user_balance(), 900);
}

#[test]
fn wrong_vault_address_fails_close_and_keeps_the_record() {
    let (mut c, sa, va) = initialized_world(1_000);
    c.deposit(&sa, &va, 100).unwrap();
    let wrong = addr(0);
    let r = c.close_account(&sa, &wrong);
    assert!(matches!(r, Err(VaultError::DerivationMismatch)));
    assert!(c.record().is_some());
    assert_eq!(c.vault_balance(), 100);
    assert_eq!(c.user_balance(), 900);
}

#[test]
fn wrong_state_address_fails_with_derivation_mismatch() {
    let (mut c, _sa, va) = initialized_world(1_000);
    let wrong = addr(0);
    let r = c.deposit(&wrong, &va, 10);
    assert!(matches!(r, Err(VaultError::DerivationMismatch)));
    assert_eq!(c.user_balance(), 1_000);
    assert_eq!(c.vault_balance(), 0);
}

#[test]
fn close_drains_the_vault_and_destroys_the_record() {
    let (mut c, sa, va) = initialized_world(1_000);
    c.deposit(&sa, &va, 250).unwrap();
    let before = c.vault_balance();
    let user_before = c.user_balance();
    let ev = c.close_account(&sa, &va).unwrap();
    assert!(ev.user == addr(7));
    assert!(ev.vault_state == sa);
    assert_eq!(c.vault_balance(), 0);
    assert_eq!(c.user_balance(), user_before + before);
    assert!(c.record().is_none());
}

#[test]
fn close_on_an_empty_vault_succeeds() {
    let (mut c, sa, va) = initialized_world(77);
    c.close_account(&sa, &va).unwrap();
    assert_eq!(c.vault_balance(), 0);
    assert_eq!(c.user_balance(), 77);
    assert!(c.record().is_none());
}

#[test]
fn balances_are_conserved_over_a_sequence() {
    let (mut c, sa, va) = initialized_world(1_000);
    let total_before = c.user_balance() + c.vault_balance();
    c.deposit(&sa, &va, 300).unwrap();
    c.withdraw(&sa, &va, 120).unwrap();
    c.deposit(&sa, &va, 50).unwrap();
    assert!(c.withdraw(&sa, &va, 999).is_err());
    assert!(c.deposit(&sa, &va, 2_000).is_err());
    c.withdraw(&sa, &va, 30).unwrap();
    // vault = 300 - 120 + 50 - 30; failed operations moved nothing
    assert_eq!(c.vault_balance(), 200);
    assert_eq!(c.user_balance() + c.vault_balance(), total_before);
}

#[test]
fn full_lifecycle_scenario() {
    let mut c = Custody::new(addr(7), addr(9), 1_000);
    let ev = c.initialize().unwrap();
    assert_eq!(c.vault_balance(), 0);
    c.deposit(&ev.vault_state, &ev.vault, 100).unwrap();
    assert_eq!(c.vault_balance(), 100);
    let user_before = c.user_balance();
    c.withdraw(&ev.vault_state, &ev.vault, 40).unwrap();
    assert_eq!(c.vault_balance(), 60);
    assert_eq!(c.user_balance(), user_before + 40);
    let too_much = c.withdraw(&ev.vault_state, &ev.vault, 1_000);
    assert!(matches!(too_much, Err(VaultError::InsufficientBalance)));
    assert_eq!(c.vault_balance(), 60);
    let user_before_close = c.user_balance();
    c.close_account(&ev.vault_state, &ev.vault).unwrap();
    assert_eq!(c.user_balance(), user_before_close + 60);
    assert_eq!(c.vault_balance(), 0);
    assert!(c.record().is_none());
    let after = c.withdraw(&ev.vault_state, &ev.vault, 1);
    assert!(matches!(after, Err(VaultError::MissingRecord)));
}

#[test]
fn from_parts_resumes_a_stored_record() {
    let (c, sa, va) = initialized_world(500);
    let record = c.record();
    let mut resumed =
        Custody::from_parts(addr(7), addr(9), record, 80, 20).unwrap();
    resumed.withdraw(&sa, &va, 80).unwrap();
    assert_eq!(resumed.vault_balance(), 0);
    assert_eq!(resumed.user_balance(), 100);
}

#[test]
fn signing_seeds_hold_label_anchor_and_proof_byte_in_order() {
    let anchor = addr(5);
    let seeds = signing_seeds(&b"vault".to_vec(), &anchor, 254);
    assert_eq!(seeds.len(), 3);
    assert_eq!(seeds[0], b"vault".to_vec());
    assert_eq!(seeds[1], vec![5u8; 32]);
    assert_eq!(seeds[2], vec![254u8]);
}

#[test]
fn from_parts_rejects_a_total_beyond_the_balance_type() {
    let r = Custody::from_parts(addr(7), addr(9), None, 1, u64::MAX);
    assert!(r.is_none());
    assert!(Custody::from_parts(addr(7), addr(9), None, 0, u64::MAX).is_some());
}
