use vstd::prelude::*;

use crate::errors::EscrowError;
use crate::ids::AccountId;
use crate::status::{funding_status, release_status, EscrowStatus};

verus! {

/// The escrow record kept for one contract.
///
/// `client`, `freelancer`, `contract_id` and `total_amount` are fixed at
/// creation; the three counters only ever grow; `status` is derived from the
/// counters by every transition, except for the dispute freeze which sets it
/// directly.
#[derive(Clone, PartialEq, Eq, Debug)]
pub struct Escrow {
    /// Client who created the escrow and deposits into it.
    pub client: AccountId,
    /// Freelancer who receives released funds.
    pub freelancer: AccountId,
    /// Opaque 16-byte correlation identifier for the off-chain contract.
    pub contract_id: [u8; 16],
    /// Total expected commitment in lamports.
    pub total_amount: u64,
    /// Lamports deposited so far.
    pub funded_amount: u64,
    /// Lamports released to the freelancer so far.
    pub released_amount: u64,
    /// Lamports refunded to the client so far.
    pub refunded_amount: u64,
    /// Current status, derived as described on the type.
    pub status: EscrowStatus,
    /// Unix timestamp of creation.
    pub created_at: i64,
    /// Unix timestamp of the last mutating operation.
    pub updated_at: i64,
}

impl Escrow {
    /// Balance still held for the record: deposits not yet released or
    /// refunded. Only meaningful under `inv`.
    pub open spec fn avail(self) -> int {
        self.funded_amount - self.released_amount - self.refunded_amount
    }

    /// Central accounting invariant: the deposits always cover everything
    /// released and refunded, so the ledger neither creates nor destroys
    /// value. Established at creation and preserved by every operation.
    pub open spec fn inv(self) -> bool {
        self.released_amount + self.refunded_amount <= self.funded_amount
    }

    /// What the stored status says about the counters. The status is never
    /// set freely: every transition derives it (or, for a dispute, freezes
    /// it), so each label carries exact information about the record.
    pub open spec fn status_consistent(self) -> bool {
        match self.status {
            EscrowStatus::Created => self.funded_amount == 0 && self.released_amount == 0
                && self.refunded_amount == 0,
            EscrowStatus::PartiallyFunded => self.funded_amount < self.total_amount
                && self.released_amount == 0,
            EscrowStatus::FullyFunded => self.funded_amount >= self.total_amount
                && self.released_amount == 0,
            EscrowStatus::PartiallyReleased => self.released_amount > 0,
            EscrowStatus::FullyReleased => self.released_amount > 0 && self.avail() == 0,
            EscrowStatus::Refunded => self.released_amount == 0 && self.refunded_amount > 0
                && self.avail() == 0,
            EscrowStatus::Disputed => true,
        }
    }

    /// The record as created: counters zero, status `Created`, both
    /// timestamps set to the creation time.
    pub open spec fn init(
        client: AccountId,
        freelancer: AccountId,
        contract_id: [u8; 16],
        total_amount: u64,
        now: i64,
    ) -> Escrow {
        Escrow {
            client,
            freelancer,
            contract_id,
            total_amount,
            funded_amount: 0,
            released_amount: 0,
            refunded_amount: 0,
            status: EscrowStatus::Created,
            created_at: now,
            updated_at: now,
        }
    }

    /// Which error, if any, a funding request runs into, in the order the
    /// checks are made: caller identity, status gate, nonzero amount,
    /// counter overflow.
    pub open spec fn fund_check(self, client: AccountId, amount: u64) -> Result<(), EscrowError> {
        if self.client != client {
            Err(EscrowError::UnauthorizedClient)
        } else if self.status != EscrowStatus::Created && self.status != EscrowStatus::PartiallyFunded {
            Err(EscrowError::InvalidEscrowState)
        } else if amount == 0 {
            Err(EscrowError::InvalidAmount)
        } else if self.funded_amount + amount > u64::MAX {
            Err(EscrowError::Overflow)
        } else {
            Ok(())
        }
    }

    /// The record after a successful funding step: the deposit counter grows
    /// by the amount and the status is recomputed from the new total.
    pub open spec fn fund_apply(self, amount: u64, now: i64) -> Escrow {
        Escrow {
            funded_amount: (self.funded_amount + amount) as u64,
            status: funding_status((self.funded_amount + amount) as u64, self.total_amount),
            updated_at: now,
            ..self
        }
    }

    /// Which error, if any, a release request runs into: caller identity,
    /// status gate, payee identity, nonzero amount, corrupt counters
    /// (mirrors the checked subtractions), then the available balance.
    pub open spec fn release_check(
        self,
        client: AccountId,
        freelancer: AccountId,
        amount: u64,
    ) -> Result<(), EscrowError> {
        if self.client != client {
            Err(EscrowError::UnauthorizedClient)
        } else if self.status != EscrowStatus::FullyFunded && self.status != EscrowStatus::PartiallyReleased {
            Err(EscrowError::InvalidEscrowState)
        } else if self.freelancer != freelancer {
            Err(EscrowError::InvalidFreelancer)
        } else if amount == 0 {
            Err(EscrowError::InvalidAmount)
        } else if self.released_amount + self.refunded_amount > self.funded_amount {
            Err(EscrowError::Overflow)
        } else if amount > self.avail() {
            Err(EscrowError::InsufficientFunds)
        } else {
            Ok(())
        }
    }

    /// The record after a successful release step: the released counter
    /// grows and the status is recomputed from the balance that remains.
    pub open spec fn release_apply(self, amount: u64, now: i64) -> Escrow {
        Escrow {
            released_amount: (self.released_amount + amount) as u64,
            status: release_status(
                self.funded_amount - (self.released_amount + amount) - self.refunded_amount,
            ),
            updated_at: now,
            ..self
        }
    }

    /// Which error, if any, a refund request runs into. Refund has no status
    /// gate: it is the universal remediation path, open from any status.
    pub open spec fn refund_check(self, client: AccountId, amount: u64) -> Result<(), EscrowError> {
        if self.client != client {
            Err(EscrowError::UnauthorizedClient)
        } else if amount == 0 {
            Err(EscrowError::InvalidAmount)
        } else if self.released_amount + self.refunded_amount > self.funded_amount {
            Err(EscrowError::Overflow)
        } else if amount > self.avail() {
            Err(EscrowError::InsufficientFunds)
        } else {
            Ok(())
        }
    }

    /// The record after a successful refund step: the refunded counter
    /// grows; the record is relabeled `Refunded` only when it is fully
    /// drained and nothing was ever released, otherwise the status stays as
    /// it was.
    pub open spec fn refund_apply(self, amount: u64, now: i64) -> Escrow {
        Escrow {
            refunded_amount: (self.refunded_amount + amount) as u64,
            status: if self.funded_amount - self.released_amount - (self.refunded_amount + amount) == 0
                && self.released_amount == 0 {
                EscrowStatus::Refunded
            } else {
                self.status
            },
            updated_at: now,
            ..self
        }
    }

    /// Which error, if any, opening a dispute runs into: either party may
    /// open one, from any status that is not already frozen or terminal.
    pub open spec fn dispute_check(self, initiator: AccountId) -> Result<(), EscrowError> {
        if self.client != initiator && self.freelancer != initiator {
            Err(EscrowError::UnauthorizedDispute)
        } else if self.status == EscrowStatus::Disputed
            || self.status == EscrowStatus::Refunded
            || self.status == EscrowStatus::FullyReleased {
            Err(EscrowError::InvalidEscrowState)
        } else {
            Ok(())
        }
    }

    /// The record after a dispute is opened: the one transition that sets
    /// the status directly, leaving every counter untouched.
    pub open spec fn dispute_apply(self, now: i64) -> Escrow {
        Escrow { status: EscrowStatus::Disputed, updated_at: now, ..self }
    }

    /// Which error, if any, destroying the record runs into: caller
    /// identity, a terminal status, and an externally confirmed empty vault.
    pub open spec fn close_check(self, client: AccountId, vault_lamports: u64) -> Result<(), EscrowError> {
        if self.client != client {
            Err(EscrowError::UnauthorizedClient)
        } else if self.status != EscrowStatus::FullyReleased && self.status != EscrowStatus::Refunded {
            Err(EscrowError::InvalidEscrowState)
        } else if vault_lamports != 0 {
            Err(EscrowError::VaultNotEmpty)
        } else {
            Ok(())
        }
    }
}

} // verus!
