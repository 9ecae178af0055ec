//! Facts handed to the notification sink after each successful operation.
//! The ledger only defines their shape; the host fills in the record
//! address it manages and delivers them.

use vstd::prelude::*;

use crate::ids::AccountId;
use crate::status::EscrowStatus;

verus! {

/// A new escrow record was created.
#[derive(Clone, PartialEq, Eq, Debug)]
pub struct EscrowCreated {
    pub escrow: AccountId,
    pub client: AccountId,
    pub freelancer: AccountId,
    pub contract_id: [u8; 16],
    pub total_amount: u64,
}

/// The client deposited into the escrow.
#[derive(Clone, PartialEq, Eq, Debug)]
pub struct EscrowFunded {
    pub escrow: AccountId,
    pub client: AccountId,
    pub amount: u64,
    pub total_funded: u64,
    pub status: EscrowStatus,
}

/// Funds were released to the freelancer for a milestone.
#[derive(Clone, PartialEq, Eq, Debug)]
pub struct MilestoneReleased {
    pub escrow: AccountId,
    pub milestone_id: [u8; 16],
    pub freelancer: AccountId,
    pub amount: u64,
    pub total_released: u64,
    pub status: EscrowStatus,
}

/// Funds were refunded to the client.
#[derive(Clone, PartialEq, Eq, Debug)]
pub struct EscrowRefunded {
    pub escrow: AccountId,
    pub client: AccountId,
    pub amount: u64,
    pub total_refunded: u64,
    pub status: EscrowStatus,
}

/// A party froze the record in a dispute.
#[derive(Clone, PartialEq, Eq, Debug)]
pub struct DisputeOpened {
    pub escrow: AccountId,
    pub initiator: AccountId,
}

/// The record was destroyed after reaching a terminal status.
#[derive(Clone, PartialEq, Eq, Debug)]
pub struct EscrowClosed {
    pub escrow: AccountId,
    pub client: AccountId,
}

} // verus!
