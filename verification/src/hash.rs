//! The FNV-1a accumulator that places the feature points.
//!
//! The accumulator is the hasher of the `fnv` crate. This module says what its
//! three operations do to the sixty-four bits it holds, and proves from that
//! what the digest of a seed and a cell is.

use fnv::FnvHasher;
use std::hash::Hasher;
use vstd::prelude::*;

verus! {

/// The multiplier of sixty-four bit FNV.
pub const FNV_PRIME: u64 = 0x0000_0100_0000_01b3;

/// One round of FNV-1a: the byte is xored into the accumulator, and the
/// product with the prime is kept modulo 2^64.
pub open spec fn fnv1a_round(state: u64, byte: u8) -> u64 {
    (((state ^ (byte as u64)) * FNV_PRIME) % 0x1_0000_0000_0000_0000) as u64
}

/// The accumulator after the rounds for `bytes`, first byte first.
pub open spec fn fnv1a(state: u64, bytes: Seq<u8>) -> u64
    decreases bytes.len(),
{
    if bytes.len() == 0 {
        state
    } else {
        fnv1a_round(fnv1a(state, bytes.drop_last()), bytes.last())
    }
}

/// The four bytes of a word, least significant first.
pub open spec fn word_bytes(word: u32) -> Seq<u8> {
    seq![
        (word & 0xff) as u8,
        ((word >> 8) & 0xff) as u8,
        ((word >> 16) & 0xff) as u8,
        ((word >> 24) & 0xff) as u8,
    ]
}

/// The digest of a cell: the accumulator starts as the seed and takes the
/// eight bytes of the cell's two coordinates.
pub open spec fn cell_digest(seed: u32, x: u32, y: u32) -> u64 {
    fnv1a(seed as u64, word_bytes(x) + word_bytes(y))
}

/// Feeding two runs of bytes one after the other is feeding their
/// concatenation.
pub proof fn lemma_fnv1a_concat(state: u64, head: Seq<u8>, tail: Seq<u8>)
    ensures
        fnv1a(fnv1a(state, head), tail) == fnv1a(state, head + tail),
    decreases tail.len(),
{
    if tail.len() == 0 {
        assert(head + tail =~= head);
    } else {
        lemma_fnv1a_concat(state, head, tail.drop_last());
        assert((head + tail).drop_last() =~= head + tail.drop_last());
        assert((head + tail).last() == tail.last());
    }
}

// What follows is taken from the source of the `fnv` crate and is assumed, not
// proved: the hasher is one word of sixty-four bits, `with_key` sets it,
// `write` runs the rounds on it and `finish` reads it.

/// The hasher of the `fnv` crate, `fnv::FnvHasher`. Its inside is not visible
/// here; what it holds goes by the name `accumulator`.
#[verifier::external_type_specification]
#[verifier::external_body]
pub struct ExFnvHasher(FnvHasher);

/// The sixty-four bits that a hasher holds: the one field of `FnvHasher`.
pub uninterp spec fn accumulator(hasher: FnvHasher) -> u64;

/// Assumed of `FnvHasher::with_key`: it makes a hasher whose accumulator is
/// the key.
pub assume_specification[ FnvHasher::with_key ](key: u64) -> (hasher: FnvHasher)
    ensures
        accumulator(hasher) == key,
;

/// Assumed of `Hasher::write` as `FnvHasher` implements it: it runs one FNV-1a
/// round on the accumulator for each byte, first byte first. It takes every
/// slice, the empty one too, and does not panic.
pub assume_specification[ <FnvHasher as Hasher>::write ](hasher: &mut FnvHasher, bytes: &[u8])
    ensures
        accumulator(*final(hasher)) == fnv1a(accumulator(*old(hasher)), bytes@),
;

/// Assumed of `Hasher::finish` as `FnvHasher` implements it: it returns the
/// accumulator as it stands.
pub assume_specification[ <FnvHasher as Hasher>::finish ](hasher: &FnvHasher) -> (digest: u64)
    ensures
        digest == accumulator(*hasher),
;

/// Splits a word into its four bytes, least significant first.
pub fn split_word(word: u32) -> (bytes: [u8; 4])
    ensures
        bytes@ == word_bytes(word),
{
    let bytes: [u8; 4] = [
        (word & 0xff) as u8,
        ((word >> 8) & 0xff) as u8,
        ((word >> 16) & 0xff) as u8,
        ((word >> 24) & 0xff) as u8,
    ];
    assert(bytes@ =~= word_bytes(word));
    bytes
}

/// The digest of a cell: a hasher keyed with the seed is fed the bytes of `x`,
/// then those of `y`, least significant byte first on every machine.
pub fn digest_cell(seed: u32, x: u32, y: u32) -> (digest: u64)
    ensures
        digest == cell_digest(seed, x, y),
{
    let mut hasher = FnvHasher::with_key(seed as u64);
    let head = split_word(x);
    let tail = split_word(y);
    hasher.write(head.as_slice());
    hasher.write(tail.as_slice());
    proof {
        lemma_fnv1a_concat(seed as u64, word_bytes(x), word_bytes(y));
    }
    hasher.finish()
}

} // verus!
