use vstd::prelude::*;

verus! {

/// Opaque 32-byte identity handle for a wallet, held as four 64-bit words.
///
/// The ledger never verifies an identity; it only compares the authenticated
/// caller that the host hands in against the identities stored in a record.
#[derive(Clone, Copy, PartialEq, Eq, Structural, Hash, Debug)]
pub struct AccountId {
    pub w0: u64,
    pub w1: u64,
    pub w2: u64,
    pub w3: u64,
}

} // verus!
