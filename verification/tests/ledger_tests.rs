use escrow_bridge::errors::EscrowError;
use escrow_bridge::ledger::{CreateEscrowParams, EscrowLedger};

const T: i64 = 1_700_000_000;
const DAY: i64 = 86_400;

fn params(code: &[u8], amount: u64, days: u32) -> CreateEscrowParams {
    CreateEscrowParams {
        amount,
        claim_code: code.to_vec(),
        expiry_days: days,
    }
}

#[test]
fn create_escrow_fills_the_record() {
    let mut ledger = EscrowLedger::new();
    let depositor = [0xD0; 32];
    let event = ledger
        .create_escrow(depositor, &params(b"ABC123", 1000, 1), T, 7)
        .unwrap();
    assert_eq!(event.claim_code, b"ABC123".to_vec());
    assert_eq!(event.amount, 1000);
    assert_eq!(event.depositor, depositor);
    assert_eq!(event.expires_at, T + DAY);

    let rec = ledger.lookup(b"ABC123").unwrap();
    assert_eq!(rec.depositor, depositor);
    assert_eq!(rec.amount, 1000);
    assert_eq!(rec.claim_code, b"ABC123".to_vec());
    assert!(!rec.claimed);
    assert_eq!(rec.created_at, T);
    assert_eq!(rec.expires_at, T + DAY);
    assert_eq!(rec.bump, 7);
    assert_eq!(ledger.len(), 1);
}

#[test]
fn create_escrow_rejects_a_live_duplicate() {
    let mut ledger = EscrowLedger::new();
    ledger
        .create_escrow([1; 32], &params(b"CODE", 10, 1), T, 0)
        .unwrap();
    let err = ledger
        .create_escrow([2; 32], &params(b"CODE", 20, 1), T + 100, 0)
        .unwrap_err();
    assert_eq!(err, EscrowError::InvalidClaimCode);
    assert_eq!(ledger.lookup(b"CODE").unwrap().amount, 10);
}

#[test]
fn create_escrow_replaces_a_claimed_record() {
    let mut ledger = EscrowLedger::new();
    ledger
        .create_escrow([1; 32], &params(b"CODE", 10, 1), T, 0)
        .unwrap();
    ledger.claim(b"CODE", T + 1).unwrap();
    ledger
        .create_escrow([2; 32], &params(b"CODE", 20, 1), T + 2, 0)
        .unwrap();
    let rec = ledger.lookup(b"CODE").unwrap();
    assert_eq!(rec.amount, 20);
    assert!(!rec.claimed);
    assert_eq!(ledger.len(), 1);
}

#[test]
fn create_escrow_replaces_an_expired_record() {
    let mut ledger = EscrowLedger::new();
    ledger
        .create_escrow([1; 32], &params(b"CODE", 10, 1), T, 0)
        .unwrap();
    ledger
        .create_escrow([2; 32], &params(b"CODE", 20, 1), T + DAY + 1, 0)
        .unwrap();
    assert_eq!(ledger.lookup(b"CODE").unwrap().amount, 20);
}

#[test]
fn second_claim_fails_with_already_claimed() {
    let mut ledger = EscrowLedger::new();
    ledger
        .create_escrow([1; 32], &params(b"ONCE", 10, 1), T, 0)
        .unwrap();
    assert!(ledger.claim(b"ONCE", T + 1).is_ok());
    assert_eq!(
        ledger.claim(b"ONCE", T + 2).unwrap_err(),
        EscrowError::AlreadyClaimed
    );
    assert_eq!(
        ledger.claim(b"ONCE", T + DAY + 100).unwrap_err(),
        EscrowError::AlreadyClaimed
    );
}

#[test]
fn claim_at_the_expiry_boundary_succeeds() {
    let mut ledger = EscrowLedger::new();
    ledger
        .create_escrow([1; 32], &params(b"EDGE", 10, 1), T, 0)
        .unwrap();
    assert!(ledger.claim(b"EDGE", T + DAY).is_ok());
}

#[test]
fn claim_after_expiry_fails() {
    let mut ledger = EscrowLedger::new();
    ledger
        .create_escrow([1; 32], &params(b"LATE", 10, 1), T, 0)
        .unwrap();
    assert_eq!(
        ledger.claim(b"LATE", T + DAY + 1).unwrap_err(),
        EscrowError::EscrowExpired
    );
    // a failed claim leaves the record unclaimed
    assert!(!ledger.lookup(b"LATE").unwrap().claimed);
}

#[test]
fn claim_of_an_unknown_code_fails() {
    let mut ledger = EscrowLedger::new();
    assert_eq!(
        ledger.claim(b"NOPE", T).unwrap_err(),
        EscrowError::InvalidClaimCode
    );
}

#[test]
fn lookup_of_an_unknown_code_is_none() {
    let mut ledger = EscrowLedger::new();
    ledger
        .create_escrow([1; 32], &params(b"HERE", 10, 1), T, 0)
        .unwrap();
    assert!(ledger.lookup(b"GONE").is_none());
}

#[test]
fn records_are_kept_per_code() {
    let mut ledger = EscrowLedger::new();
    ledger
        .create_escrow([1; 32], &params(b"A", 1, 1), T, 0)
        .unwrap();
    ledger
        .create_escrow([2; 32], &params(b"B", 2, 2), T, 0)
        .unwrap();
    ledger.claim(b"A", T).unwrap();
    assert!(ledger.lookup(b"A").unwrap().claimed);
    assert!(!ledger.lookup(b"B").unwrap().claimed);
    assert_eq!(ledger.record_at(0).claim_code, b"A".to_vec());
    assert_eq!(ledger.record_at(1).claim_code, b"B".to_vec());
}

#[test]
fn empty_claim_code_is_a_code_like_any_other() {
    let mut ledger = EscrowLedger::new();
    ledger
        .create_escrow([1; 32], &params(b"", 5, 1), T, 0)
        .unwrap();
    assert_eq!(ledger.lookup(b"").unwrap().amount, 5);
    assert!(ledger.claim(b"", T).is_ok());
}
