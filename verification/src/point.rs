//! The point generator: from a seed and a cell to the cell's feature point.
//!
//! The digest of the cell is split into two words, the high word is mixed with
//! the low one, and the top twenty-three bits of each word become the fraction
//! of a number between 1.0 and 2.0. One less than that number is the offset of
//! the feature point within its cell, on that axis.

use crate::binary32::{in_one_to_two, numerator_above_one, FRACTION_STEPS, ONE};
use crate::hash::{cell_digest, digest_cell};
use vstd::prelude::*;

verus! {

/// The feature point of a cell. Each coordinate is the binary32 pattern of one
/// plus the point's offset within the cell.
#[derive(Clone, Copy, Debug, PartialEq, Eq, Structural)]
pub struct FeaturePoint {
    pub x: u32,
    pub y: u32,
}

impl FeaturePoint {
    /// Both coordinates denote numbers from 1.0 up to, not including, 2.0, so
    /// both offsets lie from 0 up to, not including, 1.
    pub open spec fn wf(self) -> bool {
        in_one_to_two(self.x) && in_one_to_two(self.y)
    }
}

/// The low thirty-two bits of a digest.
pub open spec fn low_word(digest: u64) -> u32 {
    (digest % 0x1_0000_0000) as u32
}

/// The high thirty-two bits of a digest.
pub open spec fn high_word(digest: u64) -> u32 {
    (digest / 0x1_0000_0000) as u32
}

/// The two words drawn from a digest: its low word, and its high word xored
/// with the low one.
pub open spec fn mixed_words(digest: u64) -> (u32, u32) {
    (low_word(digest), high_word(digest) ^ low_word(digest))
}

/// The pattern of `1 + n / 2^23`, where `n` is the top twenty-three bits of
/// `word`.
pub open spec fn above_one(word: u32) -> u32 {
    (ONE + word / 512) as u32
}

/// The feature point of the cell `(x, y)` under `seed`.
pub open spec fn point_of(seed: u32, x: u32, y: u32) -> FeaturePoint {
    let words = mixed_words(cell_digest(seed, x, y));
    FeaturePoint { x: above_one(words.0), y: above_one(words.1) }
}

/// Whatever the word, the pattern made from it denotes a number from 1.0 up
/// to, not including, 2.0, and its numerator is the word's top twenty-three
/// bits.
pub proof fn lemma_above_one_range(word: u32)
    ensures
        in_one_to_two(above_one(word)),
        numerator_above_one(above_one(word)) == word / 512,
        0 <= numerator_above_one(above_one(word)) < FRACTION_STEPS,
{
}

/// Every feature point lies inside its cell: both offsets are at least 0 and
/// less than 1, for every seed and every cell.
pub proof fn lemma_point_in_cell(seed: u32, x: u32, y: u32)
    ensures
        point_of(seed, x, y).wf(),
{
    let words = mixed_words(cell_digest(seed, x, y));
    lemma_above_one_range(words.0);
    lemma_above_one_range(words.1);
}

/// Mixing loses nothing: two digests that give the same pair of words are the
/// same digest.
pub proof fn lemma_mixed_words_injective(a: u64, b: u64)
    requires
        mixed_words(a) == mixed_words(b),
    ensures
        a == b,
{
    let (la, ha) = (low_word(a), high_word(a));
    let (lb, hb) = (low_word(b), high_word(b));
    assert(ha == hb) by (bit_vector)
        requires
            la == lb,
            ha ^ la == hb ^ lb,
    ;
}

/// Splits a digest into its two words and mixes the high one with the low
/// one.
pub fn mix_digest(digest: u64) -> (words: (u32, u32))
    ensures
        words == mixed_words(digest),
{
    let low: u64 = digest & 0xffff_ffff;
    let mixed: u64 = (digest >> 32) ^ low;
    assert(low == digest % 0x1_0000_0000) by (bit_vector)
        requires
            low == digest & 0xffff_ffff,
    ;
    assert(mixed <= 0xffff_ffff && mixed as u32 == ((digest / 0x1_0000_0000) as u32) ^ (low as u32))
        by (bit_vector)
        requires
            low == digest & 0xffff_ffff,
            mixed == (digest >> 32) ^ low,
    ;
    (low as u32, mixed as u32)
}

/// Makes the pattern of a number from 1.0 up to 2.0 out of a word: the top
/// twenty-three bits of the word become the fraction, under the exponent of
/// 1.0.
pub fn int_to_float(word: u32) -> (bits: u32)
    ensures
        bits == above_one(word),
        in_one_to_two(bits),
        numerator_above_one(bits) == word / 512,
{
    let bits: u32 = word >> 9 | 0x3f80_0000;
    assert(bits == 0x3f80_0000 + word / 512) by (bit_vector)
        requires
            bits == word >> 9 | 0x3f80_0000,
    ;
    bits
}

/// The feature point of the cell whose coordinates have the patterns `x` and
/// `y`, under `seed`. The same seed and cell always give the same point, and
/// the point lies inside the cell.
pub fn point_for_cell(seed: u32, x: u32, y: u32) -> (point: FeaturePoint)
    ensures
        point == point_of(seed, x, y),
        point.wf(),
{
    let words = mix_digest(digest_cell(seed, x, y));
    FeaturePoint { x: int_to_float(words.0), y: int_to_float(words.1) }
}

} // verus!
