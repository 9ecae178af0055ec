use vstd::prelude::*;

verus! {

/// Typed failures of the ledger operations.
///
/// Every precondition is checked before any counter is touched, so an error
/// always leaves the record exactly as it was.
#[derive(Clone, Copy, PartialEq, Eq, Structural, Debug)]
pub enum EscrowError {
    /// Only the client may perform this action.
    UnauthorizedClient,
    /// The operation is not permitted from the current status.
    InvalidEscrowState,
    /// The payee handed in does not match the record's freelancer.
    InvalidFreelancer,
    /// The requested movement exceeds the available balance.
    InsufficientFunds,
    /// The amount must be greater than zero.
    InvalidAmount,
    /// Checked 64-bit arithmetic would overflow or underflow.
    Overflow,
    /// Only the client or the freelancer may open a dispute.
    UnauthorizedDispute,
    /// The custodial vault still holds value.
    VaultNotEmpty,
}

} // verus!
