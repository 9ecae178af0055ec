use trenchjob_escrow::errors::EscrowError;
use trenchjob_escrow::ids::AccountId;
use trenchjob_escrow::ops::{
    fund_escrow, initialize_escrow, open_dispute, refund, release_milestone,
};
use trenchjob_escrow::status::EscrowStatus;

fn acct(n: u64) -> AccountId {
    AccountId { w0: n, w1: 0, w2: 0, w3: 0 }
}

#[test]
fn fund_by_stranger_rejected() {
    let client = acct(1);
    let payee = acct(2);
    let mut r = initialize_escrow(client, [0u8; 16], 1000, payee, 1);
    let before = r.clone();
    assert_eq!(fund_escrow(&mut r, acct(9), 100, 2), Err(EscrowError::UnauthorizedClient));
    assert_eq!(r, before);
}

#[test]
fn fund_zero_rejected() {
    let client = acct(1);
    let mut r = initialize_escrow(client, [0u8; 16], 1000, acct(2), 1);
    let before = r.clone();
    assert_eq!(fund_escrow(&mut r, client, 0, 2), Err(EscrowError::InvalidAmount));
    assert_eq!(r, before);
}

#[test]
fn fund_overflow_rejected() {
    let client = acct(1);
    let mut r = initialize_escrow(client, [0u8; 16], u64::MAX, acct(2), 1);
    assert_eq!(fund_escrow(&mut r, client, u64::MAX - 1, 2), Ok(()));
    assert_eq!(r.status, EscrowStatus::PartiallyFunded);
    let before = r.clone();
    assert_eq!(fund_escrow(&mut r, client, 2, 3), Err(EscrowError::Overflow));
    assert_eq!(r, before);
    assert_eq!(r.funded_amount, u64::MAX - 1);
}

#[test]
fn fund_after_fully_funded_rejected() {
    let client = acct(1);
    let mut r = initialize_escrow(client, [0u8; 16], 100, acct(2), 1);
    assert_eq!(fund_escrow(&mut r, client, 100, 2), Ok(()));
    assert_eq!(r.status, EscrowStatus::FullyFunded);
    let before = r.clone();
    assert_eq!(fund_escrow(&mut r, client, 1, 3), Err(EscrowError::InvalidEscrowState));
    assert_eq!(r, before);
}

#[test]
fn release_zero_rejected_unchanged() {
    let client = acct(1);
    let payee = acct(2);
    let mut r = initialize_escrow(client, [0u8; 16], 100, payee, 1);
    assert_eq!(fund_escrow(&mut r, client, 100, 2), Ok(()));
    let before = r.clone();
    assert_eq!(
        release_milestone(&mut r, client, payee, [0u8; 16], 0, 3),
        Err(EscrowError::InvalidAmount)
    );
    assert_eq!(r, before);
}

#[test]
fn refund_zero_rejected_unchanged() {
    let client = acct(1);
    let mut r = initialize_escrow(client, [0u8; 16], 100, acct(2), 1);
    assert_eq!(fund_escrow(&mut r, client, 100, 2), Ok(()));
    let before = r.clone();
    assert_eq!(refund(&mut r, client, 0, 3), Err(EscrowError::InvalidAmount));
    assert_eq!(r, before);
}

#[test]
fn release_before_fully_funded_rejected() {
    let client = acct(1);
    let payee = acct(2);
    let mut r = initialize_escrow(client, [0u8; 16], 1000, payee, 1);
    assert_eq!(fund_escrow(&mut r, client, 400, 2), Ok(()));
    let before = r.clone();
    assert_eq!(
        release_milestone(&mut r, client, payee, [0u8; 16], 100, 3),
        Err(EscrowError::InvalidEscrowState)
    );
    assert_eq!(r, before);
}

#[test]
fn release_to_wrong_payee_rejected() {
    let client = acct(1);
    let payee = acct(2);
    let mut r = initialize_escrow(client, [0u8; 16], 100, payee, 1);
    assert_eq!(fund_escrow(&mut r, client, 100, 2), Ok(()));
    let before = r.clone();
    assert_eq!(
        release_milestone(&mut r, client, acct(9), [0u8; 16], 50, 3),
        Err(EscrowError::InvalidFreelancer)
    );
    assert_eq!(r, before);
}

#[test]
fn release_by_payee_rejected() {
    let client = acct(1);
    let payee = acct(2);
    let mut r = initialize_escrow(client, [0u8; 16], 100, payee, 1);
    assert_eq!(fund_escrow(&mut r, client, 100, 2), Ok(()));
    assert_eq!(
        release_milestone(&mut r, payee, payee, [0u8; 16], 50, 3),
        Err(EscrowError::UnauthorizedClient)
    );
}

#[test]
fn refund_beyond_available_rejected() {
    let client = acct(1);
    let mut r = initialize_escrow(client, [0u8; 16], 100, acct(2), 1);
    assert_eq!(fund_escrow(&mut r, client, 100, 2), Ok(()));
    let before = r.clone();
    assert_eq!(refund(&mut r, client, 101, 3), Err(EscrowError::InsufficientFunds));
    assert_eq!(r, before);
}

#[test]
fn dispute_by_stranger_rejected() {
    let client = acct(1);
    let payee = acct(2);
    let mut r = initialize_escrow(client, [0u8; 16], 100, payee, 1);
    let before = r.clone();
    assert_eq!(open_dispute(&mut r, acct(9), 2), Err(EscrowError::UnauthorizedDispute));
    assert_eq!(r, before);
}

#[test]
fn dispute_from_terminal_or_frozen_rejected() {
    let client = acct(1);
    let payee = acct(2);
    let mut r = initialize_escrow(client, [0u8; 16], 100, payee, 1);
    assert_eq!(open_dispute(&mut r, client, 2), Ok(()));
    assert_eq!(r.status, EscrowStatus::Disputed);
    assert_eq!(open_dispute(&mut r, client, 3), Err(EscrowError::InvalidEscrowState));

    let mut done = initialize_escrow(client, [1u8; 16], 100, payee, 1);
    assert_eq!(fund_escrow(&mut done, client, 100, 2), Ok(()));
    assert_eq!(refund(&mut done, client, 100, 3), Ok(()));
    assert_eq!(done.status, EscrowStatus::Refunded);
    assert_eq!(open_dispute(&mut done, payee, 4), Err(EscrowError::InvalidEscrowState));
}
