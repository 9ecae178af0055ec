use vstd::prelude::*;

use crate::errors::EscrowError;
use crate::ids::AccountId;
use crate::record::Escrow;
use crate::status::EscrowStatus;

verus! {

/// Creates the escrow record for a new contract: counters zero, status
/// `Created`, both timestamps set to the creation time. Storing the record
/// under `contract_id`, and refusing a duplicate, is the store's job.
pub fn initialize_escrow(
    client: AccountId,
    contract_id: [u8; 16],
    total_amount: u64,
    freelancer: AccountId,
    now: i64,
) -> (r: Escrow)
    ensures
        r == Escrow::init(client, freelancer, contract_id, total_amount, now),
        r.inv(),
        r.status_consistent(),
{
    Escrow {
        client,
        freelancer,
        contract_id,
        total_amount,
        funded_amount: 0,
        released_amount: 0,
        refunded_amount: 0,
        status: EscrowStatus::Created,
        created_at: now,
        updated_at: now,
    }
}

/// Deposits `amount` lamports into the escrow. Only the client may fund,
/// only while the record is still being funded, and the deposit counter must
/// not overflow; the caller moves the value itself once this returns `Ok`.
pub fn fund_escrow(escrow: &mut Escrow, client: AccountId, amount: u64, now: i64) -> (res: Result<
    (),
    EscrowError,
>)
    requires
        old(escrow).inv(),
        now >= old(escrow).updated_at,
    ensures
        final(escrow).inv(),
        res == old(escrow).fund_check(client, amount),
        res is Ok ==> *final(escrow) == old(escrow).fund_apply(amount, now),
        res is Err ==> *final(escrow) == *old(escrow),
{
    if escrow.client != client {
        return Err(EscrowError::UnauthorizedClient);
    }
    if escrow.status != EscrowStatus::Created && escrow.status != EscrowStatus::PartiallyFunded {
        return Err(EscrowError::InvalidEscrowState);
    }
    if amount == 0 {
        return Err(EscrowError::InvalidAmount);
    }
    if amount > u64::MAX - escrow.funded_amount {
        return Err(EscrowError::Overflow);
    }
    escrow.funded_amount = escrow.funded_amount + amount;
    escrow.updated_at = now;
    if escrow.funded_amount >= escrow.total_amount {
        escrow.status = EscrowStatus::FullyFunded;
    } else {
        escrow.status = EscrowStatus::PartiallyFunded;
    }
    Ok(())
}

/// Releases `amount` lamports to the freelancer for a completed milestone.
/// Release authority rests with the client; the record must be fully funded
/// or already partially released, the payee handed in must match the record,
/// and the amount must not exceed the available balance. The milestone tag
/// is an opaque correlation identifier that the ledger does not read; the
/// caller carries it into the notification it emits.
pub fn release_milestone(
    escrow: &mut Escrow,
    client: AccountId,
    freelancer: AccountId,
    _milestone_id: [u8; 16],
    amount: u64,
    now: i64,
) -> (res: Result<(), EscrowError>)
    requires
        old(escrow).inv(),
        now >= old(escrow).updated_at,
    ensures
        final(escrow).inv(),
        res == old(escrow).release_check(client, freelancer, amount),
        res is Ok ==> *final(escrow) == old(escrow).release_apply(amount, now),
        res is Err ==> *final(escrow) == *old(escrow),
{
    if escrow.client != client {
        return Err(EscrowError::UnauthorizedClient);
    }
    if escrow.status != EscrowStatus::FullyFunded && escrow.status != EscrowStatus::PartiallyReleased {
        return Err(EscrowError::InvalidEscrowState);
    }
    if escrow.freelancer != freelancer {
        return Err(EscrowError::InvalidFreelancer);
    }
    if amount == 0 {
        return Err(EscrowError::InvalidAmount);
    }
    let available: u64 = escrow.funded_amount - escrow.released_amount - escrow.refunded_amount;
    if amount > available {
        return Err(EscrowError::InsufficientFunds);
    }
    escrow.released_amount = escrow.released_amount + amount;
    escrow.updated_at = now;
    let remaining: u64 = escrow.funded_amount - escrow.released_amount - escrow.refunded_amount;
    if remaining == 0 {
        escrow.status = EscrowStatus::FullyReleased;
    } else {
        escrow.status = EscrowStatus::PartiallyReleased;
    }
    Ok(())
}

/// Refunds `amount` lamports to the client. Refund has no status gate — it
/// is the universal remediation path — but never exceeds the available
/// balance, and the record is relabeled `Refunded` only when it is fully
/// drained without anything ever having been released.
pub fn refund(escrow: &mut Escrow, client: AccountId, amount: u64, now: i64) -> (res: Result<
    (),
    EscrowError,
>)
    requires
        old(escrow).inv(),
        now >= old(escrow).updated_at,
    ensures
        final(escrow).inv(),
        res == old(escrow).refund_check(client, amount),
        res is Ok ==> *final(escrow) == old(escrow).refund_apply(amount, now),
        res is Err ==> *final(escrow) == *old(escrow),
{
    if escrow.client != client {
        return Err(EscrowError::UnauthorizedClient);
    }
    if amount == 0 {
        return Err(EscrowError::InvalidAmount);
    }
    let available: u64 = escrow.funded_amount - escrow.released_amount - escrow.refunded_amount;
    if amount > available {
        return Err(EscrowError::InsufficientFunds);
    }
    escrow.refunded_amount = escrow.refunded_amount + amount;
    escrow.updated_at = now;
    let remaining: u64 = escrow.funded_amount - escrow.released_amount - escrow.refunded_amount;
    if remaining == 0 && escrow.released_amount == 0 {
        escrow.status = EscrowStatus::Refunded;
    }
    Ok(())
}

/// Freezes the record in `Disputed`. Either party may open a dispute from
/// any status that is not already frozen or terminal; the counters are left
/// untouched.
pub fn open_dispute(escrow: &mut Escrow, initiator: AccountId, now: i64) -> (res: Result<
    (),
    EscrowError,
>)
    requires
        old(escrow).inv(),
        now >= old(escrow).updated_at,
    ensures
        final(escrow).inv(),
        res == old(escrow).dispute_check(initiator),
        res is Ok ==> *final(escrow) == old(escrow).dispute_apply(now),
        res is Err ==> *final(escrow) == *old(escrow),
{
    if escrow.client != initiator && escrow.freelancer != initiator {
        return Err(EscrowError::UnauthorizedDispute);
    }
    if escrow.status == EscrowStatus::Disputed
        || escrow.status == EscrowStatus::Refunded
        || escrow.status == EscrowStatus::FullyReleased {
        return Err(EscrowError::InvalidEscrowState);
    }
    escrow.status = EscrowStatus::Disputed;
    escrow.updated_at = now;
    Ok(())
}

/// Decides whether the record may be destroyed: only the client may ask,
/// only from a terminal status, and only once the custodial vault balance —
/// confirmed by the storage collaborator, not recomputed from the counters —
/// is zero. The removal itself is the store's job.
pub fn close_escrow(escrow: &Escrow, client: AccountId, vault_lamports: u64) -> (res: Result<
    (),
    EscrowError,
>)
    ensures
        res == escrow.close_check(client, vault_lamports),
{
    if escrow.client != client {
        return Err(EscrowError::UnauthorizedClient);
    }
    if escrow.status != EscrowStatus::FullyReleased && escrow.status != EscrowStatus::Refunded {
        return Err(EscrowError::InvalidEscrowState);
    }
    if vault_lamports != 0 {
        return Err(EscrowError::VaultNotEmpty);
    }
    Ok(())
}

/// Balance still held for the record: deposits not yet released or refunded.
pub fn available(escrow: &Escrow) -> (a: u64)
    requires
        escrow.inv(),
    ensures
        a == escrow.avail(),
{
    escrow.funded_amount - escrow.released_amount - escrow.refunded_amount
}

} // verus!
