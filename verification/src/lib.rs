//! Verified core of an escrow ledger.
//!
//! One record per contract tracks a payer (`client`), a payee (`freelancer`),
//! a target commitment and three monotonically non-decreasing counters:
//! funded, released and refunded lamports. Six operations drive the record
//! through its status lattice, and every transition preserves the central
//! invariant that the deposited total always covers what has been released
//! and refunded. Identity verification, durable storage, the actual movement
//! of value and event delivery are the caller's collaborators; the ledger
//! only validates, updates counters and derives the resulting status.

pub mod errors;
pub mod events;
pub mod ids;
pub mod laws;
pub mod ops;
pub mod record;
pub mod status;
