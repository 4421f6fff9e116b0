//! A fast, non-cryptographic hasher for keying small in-memory sets by lock
//! identities (opaque 64-bit tokens) or by raw byte keys.
//!
//! The accumulator starts at a fixed seed; each input byte folds in as
//! `hash = 31 * hash + byte` (wrapping). A 64-bit key that is already well
//! distributed, such as a lock identity derived from a memory address, is
//! written through `write_u64`, which sets the accumulator to the key
//! directly. Collisions are easy to construct, so this must not back anything
//! security-sensitive.

use core::hash::{BuildHasher, Hasher};
use vstd::prelude::*;

verus! {

/// The value a fresh accumulator starts from.
pub const HASH_SEED: u64 = 1;

/// One step of the rolling accumulator: `31 * h + b`, wrapping at 64 bits.
pub open spec fn mix_byte(h: u64, b: u8) -> u64 {
    (((31 * (h as int) + (b as int)) % 0x1_0000_0000_0000_0000) as u64)
}

/// The accumulator that results from folding `bytes` into `h`, byte by byte.
pub open spec fn mix_bytes(h: u64, bytes: Seq<u8>) -> u64
    decreases bytes.len(),
{
    if bytes.len() == 0 {
        h
    } else {
        mix_byte(mix_bytes(h, bytes.drop_last()), bytes.last())
    }
}

/// Folding a concatenation equals folding each part in turn: the accumulator
/// after a series of writes depends only on the bytes written, in order, not
/// on how they were split across calls.
pub proof fn lemma_mix_bytes_append(h: u64, s1: Seq<u8>, s2: Seq<u8>)
    ensures
        mix_bytes(h, s1 + s2) == mix_bytes(mix_bytes(h, s1), s2),
    decreases s2.len(),
{
    if s2.len() == 0 {
        assert(s1 + s2 =~= s1);
    } else {
        lemma_mix_bytes_append(h, s1, s2.drop_last());
        assert((s1 + s2).drop_last() =~= s1 + s2.drop_last());
        assert((s1 + s2).last() == s2.last());
    }
}

/// Hashing is a function of the byte sequence alone: two accumulators fed the
/// same bytes from the seed end up equal.
pub proof fn lemma_hash_deterministic(a: u64, b: u64, bytes: Seq<u8>)
    requires
        a == mix_bytes(HASH_SEED, bytes),
        b == mix_bytes(HASH_SEED, bytes),
    ensures
        a == b,
{
}

/// Folding no bytes leaves the accumulator at the seed.
pub proof fn lemma_empty_input_yields_seed()
    ensures
        mix_bytes(HASH_SEED, Seq::<u8>::empty()) == HASH_SEED,
{
}

/// A 64-bit rolling accumulator keyed to the formula `31 * hash + byte`.
#[derive(Clone, Copy, Debug)]
pub struct U64Hash {
    hash: u64,
}

impl View for U64Hash {
    type V = u64;

    closed spec fn view(&self) -> u64 {
        self.hash
    }
}

impl U64Hash {
    /// A fresh accumulator, holding the seed.
    pub fn new() -> (r: U64Hash)
        ensures
            r@ == HASH_SEED,
    {
        U64Hash { hash: 1u64 }
    }
}

impl Hasher for U64Hash {
    /// The accumulated value.
    fn finish(&self) -> (r: u64)
        ensures
            r == self@,
    {
        self.hash
    }

    /// Folds each byte in turn into the accumulator.
    fn write(&mut self, bytes: &[u8])
        ensures
            final(self)@ == mix_bytes(old(self)@, bytes@),
    {
        let ghost start: u64 = self.hash;
        let mut i: usize = 0;
        while i < bytes.len()
            invariant
                i <= bytes@.len(),
                self.hash == mix_bytes(start, bytes@.take(i as int)),
            decreases bytes@.len() - i,
        {
            let b = bytes[i];
            self.hash = self.hash.wrapping_mul(31).wrapping_add(b as u64);
            proof {
                assert(bytes@.take(i + 1int).drop_last() =~= bytes@.take(i as int));
                assert(bytes@.take(i + 1int).last() == bytes@[i as int]);
            }
            i = i + 1;
        }
        proof {
            assert(bytes@.take(bytes@.len() as int) =~= bytes@);
        }
    }

    /// Sets the accumulator to the key directly: a well-distributed 64-bit
    /// key needs no further mixing.
    fn write_u64(&mut self, i: u64)
        ensures
            final(self)@ == i,
    {
        self.hash = i;
    }
}

impl BuildHasher for U64Hash {
    type Hasher = Self;

    /// Each hasher built starts from this accumulator's current value.
    fn build_hasher(&self) -> (r: Self)
        ensures
            r@ == self@,
    {
        self.clone()
    }
}

impl Default for U64Hash {
    /// Same as `new`: an accumulator holding the seed.
    fn default() -> (r: Self)
        ensures
            r@ == HASH_SEED,
    {
        U64Hash::new()
    }
}

} // verus!
