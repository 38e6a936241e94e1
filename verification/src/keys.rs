//! Opaque identities.
//!
//! Every account, mint and authority in the system is named by a fixed-size
//! opaque key. The engine never looks inside a key; it only compares keys for
//! equality and stores them. Authorities that the host derives (treasuries,
//! vault signers, token mints) are handed in as ready-made keys.

use vstd::prelude::*;

verus! {

/// A 32-byte opaque identity, stored as four 64-bit words.
#[derive(Clone, Copy, Debug, Hash, PartialEq, Eq, Structural)]
pub struct Pubkey {
    pub w0: u64,
    pub w1: u64,
    pub w2: u64,
    pub w3: u64,
}

impl Pubkey {
    /// Builds a key from its four 64-bit words.
    pub fn new(w0: u64, w1: u64, w2: u64, w3: u64) -> (r: Pubkey)
        ensures
            r == (Pubkey { w0, w1, w2, w3 }),
    {
        Pubkey { w0, w1, w2, w3 }
    }
}

} // verus!
