use vstd::prelude::*;

verus! {

/// The status lattice of an escrow record.
///
/// `Created` is the initial state; `FullyReleased` and `Refunded` are
/// terminal; `Disputed` freezes funding and release until resolved outside
/// the ledger. The other states are derived from the counters.
#[derive(Clone, Copy, PartialEq, Eq, Structural, Debug)]
pub enum EscrowStatus {
    Created,
    PartiallyFunded,
    FullyFunded,
    PartiallyReleased,
    FullyReleased,
    Refunded,
    Disputed,
}

/// Status derived after a funding step: fully funded once the deposited
/// total reaches the target commitment, partially funded below it.
pub open spec fn funding_status(funded: u64, total: u64) -> EscrowStatus {
    if funded >= total {
        EscrowStatus::FullyFunded
    } else {
        EscrowStatus::PartiallyFunded
    }
}

/// Status derived after a release step from the balance still available:
/// fully released once the record is drained, partially released otherwise.
pub open spec fn release_status(remaining: int) -> EscrowStatus {
    if remaining == 0 {
        EscrowStatus::FullyReleased
    } else {
        EscrowStatus::PartiallyReleased
    }
}

} // verus!
