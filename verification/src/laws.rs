use vstd::prelude::*;

use crate::errors::EscrowError;
use crate::ids::AccountId;
use crate::record::Escrow;
use crate::status::{funding_status, release_status, EscrowStatus};

verus! {

/// One mutating request against an existing record, as a value, so that the
/// laws below can quantify over arbitrary sequences of operations.
pub enum Op {
    Fund { client: AccountId, amount: u64, now: i64 },
    Release { client: AccountId, freelancer: AccountId, amount: u64, now: i64 },
    Refund { client: AccountId, amount: u64, now: i64 },
    Dispute { initiator: AccountId, now: i64 },
}

/// The record after one request: the transition's effect when its checks
/// pass, the record unchanged when they reject it.
pub open spec fn step(r: Escrow, op: Op) -> Escrow {
    match op {
        Op::Fund { client, amount, now } => if r.fund_check(client, amount) is Ok {
            r.fund_apply(amount, now)
        } else {
            r
        },
        Op::Release { client, freelancer, amount, now } => if r.release_check(
            client,
            freelancer,
            amount,
        ) is Ok {
            r.release_apply(amount, now)
        } else {
            r
        },
        Op::Refund { client, amount, now } => if r.refund_check(client, amount) is Ok {
            r.refund_apply(amount, now)
        } else {
            r
        },
        Op::Dispute { initiator, now } => if r.dispute_check(initiator) is Ok {
            r.dispute_apply(now)
        } else {
            r
        },
    }
}

/// The record after a whole sequence of requests, applied left to right.
pub open spec fn run(r: Escrow, ops: Seq<Op>) -> Escrow
    decreases ops.len(),
{
    if ops.len() == 0 {
        r
    } else {
        run(step(r, ops[0]), ops.drop_first())
    }
}

/// One step preserves the accounting invariant: a record whose deposits
/// cover its releases and refunds still satisfies that after any request,
/// accepted or rejected.
pub proof fn lemma_step_preserves_inv(r: Escrow, op: Op)
    requires
        r.inv(),
    ensures
        step(r, op).inv(),
{
}

/// For every state reachable from a well-formed record through any sequence
/// of operations, the deposits cover everything released and refunded.
pub proof fn lemma_run_preserves_inv(r: Escrow, ops: Seq<Op>)
    requires
        r.inv(),
    ensures
        run(r, ops).inv(),
    decreases ops.len(),
{
    if ops.len() > 0 {
        lemma_step_preserves_inv(r, ops[0]);
        lemma_run_preserves_inv(step(r, ops[0]), ops.drop_first());
    }
}

/// One step never decreases a counter and never touches the identities, the
/// correlation identifier, the target commitment or the creation time.
pub proof fn lemma_step_monotonic(r: Escrow, op: Op)
    ensures
        step(r, op).funded_amount >= r.funded_amount,
        step(r, op).released_amount >= r.released_amount,
        step(r, op).refunded_amount >= r.refunded_amount,
        step(r, op).client == r.client,
        step(r, op).freelancer == r.freelancer,
        step(r, op).contract_id == r.contract_id,
        step(r, op).total_amount == r.total_amount,
        step(r, op).created_at == r.created_at,
{
}

/// Across any sequence of operations the three counters are non-decreasing,
/// and the fields fixed at creation never change.
pub proof fn lemma_run_monotonic(r: Escrow, ops: Seq<Op>)
    ensures
        run(r, ops).funded_amount >= r.funded_amount,
        run(r, ops).released_amount >= r.released_amount,
        run(r, ops).refunded_amount >= r.refunded_amount,
        run(r, ops).client == r.client,
        run(r, ops).freelancer == r.freelancer,
        run(r, ops).contract_id == r.contract_id,
        run(r, ops).total_amount == r.total_amount,
        run(r, ops).created_at == r.created_at,
    decreases ops.len(),
{
    if ops.len() > 0 {
        lemma_step_monotonic(r, ops[0]);
        lemma_run_monotonic(step(r, ops[0]), ops.drop_first());
    }
}

/// One step keeps the stored status consistent with the counters: each
/// label still carries the exact facts listed in `status_consistent`.
pub proof fn lemma_step_keeps_status_consistent(r: Escrow, op: Op)
    requires
        r.inv(),
        r.status_consistent(),
    ensures
        step(r, op).status_consistent(),
{
}

/// For every state reachable from a freshly created record, the stored
/// status is the one the counters dictate: the derivation is deterministic
/// and no transition ever labels a record against its counters.
pub proof fn lemma_run_status_consistent(r: Escrow, ops: Seq<Op>)
    requires
        r.inv(),
        r.status_consistent(),
    ensures
        run(r, ops).status_consistent(),
        run(r, ops).inv(),
    decreases ops.len(),
{
    if ops.len() > 0 {
        lemma_step_preserves_inv(r, ops[0]);
        lemma_step_keeps_status_consistent(r, ops[0]);
        lemma_run_status_consistent(step(r, ops[0]), ops.drop_first());
    }
}

/// A release or refund of amount zero is always rejected — with
/// `InvalidAmount` once the identity and status checks pass — and the
/// rejected step leaves the record unchanged.
pub proof fn lemma_zero_amount_rejected(
    r: Escrow,
    client: AccountId,
    freelancer: AccountId,
    now: i64,
)
    ensures
        r.release_check(client, freelancer, 0) is Err,
        r.refund_check(client, 0) is Err,
        client == r.client && (r.status == EscrowStatus::FullyFunded || r.status
            == EscrowStatus::PartiallyReleased) && freelancer == r.freelancer ==> r.release_check(
            client,
            freelancer,
            0,
        ) == Err::<(), EscrowError>(EscrowError::InvalidAmount),
        client == r.client ==> r.refund_check(client, 0) == Err::<(), EscrowError>(
            EscrowError::InvalidAmount,
        ),
        step(r, Op::Release { client, freelancer, amount: 0, now }) == r,
        step(r, Op::Refund { client, amount: 0, now }) == r,
{
}

/// The stored status after every accepted step is the deterministic
/// derivation from the resulting counters: recomputed from the deposit total
/// after a fund, from the remaining balance after a release, relabeled
/// `Refunded` after a refund exactly when the record is drained without any
/// release, and forced to `Disputed` by the one direct override.
pub proof fn lemma_status_derived(r: Escrow, op: Op)
    ensures
        op matches Op::Fund { client, amount, .. } && r.fund_check(client, amount) is Ok
            ==> step(r, op).status == funding_status(step(r, op).funded_amount, r.total_amount),
        op matches Op::Release { client, freelancer, amount, .. } && r.release_check(
            client,
            freelancer,
            amount,
        ) is Ok ==> step(r, op).status == release_status(step(r, op).avail()),
        op matches Op::Refund { client, amount, .. } && r.refund_check(client, amount) is Ok
            ==> step(r, op).status == (if step(r, op).avail() == 0 && r.released_amount == 0 {
            EscrowStatus::Refunded
        } else {
            r.status
        }),
        op matches Op::Dispute { initiator, .. } && r.dispute_check(initiator) is Ok ==> step(
            r,
            op,
        ).status == EscrowStatus::Disputed,
{
}

} // verus!
