//! Nonce policy: a process-lifetime counter that yields a fresh 96-bit nonce
//! for every seal operation.
//!
//! AEAD security collapses if a (key, nonce) pair is ever reused, so the
//! counter is advanced before each use and two distinct counter values map to
//! two distinct nonces ([`lemma_nonce_uniqueness`]).  The sequence is meant to
//! be created once per process (or restored from a persisted high-water mark),
//! never once per encryption call.

use vstd::bytes::{lemma_auto_spec_u64_to_from_le_bytes, spec_u64_to_le_bytes, u64_to_le_bytes};
use vstd::prelude::*;

verus! {

/// The nonce a counter value stands for: the value in little-endian order in
/// the first 8 bytes, zeroes in the remaining 4.
pub open spec fn nonce_of(counter: u64) -> Seq<u8> {
    spec_u64_to_le_bytes(counter) + seq![0u8, 0u8, 0u8, 0u8]
}

/// A monotonically increasing source of 96-bit nonces.
pub struct NonceSequence {
    /// The next counter value to hand out.
    pub counter: u64,
}

impl NonceSequence {
    /// A fresh sequence, starting at zero.
    pub fn new() -> (r: Self)
        ensures
            r.counter == 0,
    {
        NonceSequence { counter: 0 }
    }

    /// A sequence resuming from a persisted high-water mark.
    pub fn starting_at(counter: u64) -> (r: Self)
        ensures
            r.counter == counter,
    {
        NonceSequence { counter }
    }

    /// Hands out the nonce for the current counter value and advances the
    /// counter, so the same nonce is never handed out twice.
    pub fn advance(&mut self) -> (r: Vec<u8>)
        requires
            old(self).counter < u64::MAX,
        ensures
            final(self).counter == old(self).counter + 1,
            r@ == nonce_of(old(self).counter),
            r@.len() == 12,
    {
        let mut bytes = u64_to_le_bytes(self.counter);
        bytes.push(0u8);
        bytes.push(0u8);
        bytes.push(0u8);
        bytes.push(0u8);
        proof {
            lemma_auto_spec_u64_to_from_le_bytes();
            assert(bytes@ =~= nonce_of(self.counter));
        }
        self.counter = self.counter + 1;
        bytes
    }
}

/// Nonce uniqueness: distinct counter values always yield distinct nonces, so
/// a sequence that only moves forward never repeats a (key, nonce) pair under
/// any one key.
pub proof fn lemma_nonce_uniqueness(c1: u64, c2: u64)
    requires
        c1 != c2,
    ensures
        nonce_of(c1) != nonce_of(c2),
{
    lemma_auto_spec_u64_to_from_le_bytes();
    if nonce_of(c1) == nonce_of(c2) {
        assert(spec_u64_to_le_bytes(c1) =~= nonce_of(c1).subrange(0, 8));
        assert(spec_u64_to_le_bytes(c2) =~= nonce_of(c2).subrange(0, 8));
        assert(spec_u64_to_le_bytes(c1) == spec_u64_to_le_bytes(c2));
        assert(c1 == c2);
    }
}

} // verus!
