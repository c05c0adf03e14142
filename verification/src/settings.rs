//! The parameters of a noise field, and the name of its metric.

use crate::binary32::{is_positive_finite, positive_finite};
use vstd::prelude::*;

verus! {

/// The parameters of a noise field: a seed, a frequency for each axis and an
/// offset for each axis. Frequencies and offsets are binary32 patterns.
///
/// The offset is added to a position before the position is scaled by the
/// frequency. Both frequencies of a value of this type are finite and greater
/// than zero.
#[derive(Clone, Copy, Debug)]
pub struct VoronoiSettings {
    seed: u32,
    frequency: (u32, u32),
    offset: (u32, u32),
}

/// The straight-line metric: the distance between two points is the length of
/// their difference. The length is taken on the numbers, by the caller; this
/// value names the metric that a search was made under.
#[derive(Clone, Copy, Debug, PartialEq, Eq, Structural)]
pub struct VoronoiDistanceEuclidean;

impl VoronoiSettings {
    #[verifier::type_invariant]
    spec fn frequency_positive(self) -> bool {
        is_positive_finite(self.frequency.0) && is_positive_finite(self.frequency.1)
    }

    /// The seed of these settings.
    pub closed spec fn spec_seed(&self) -> u32 {
        self.seed
    }

    /// The frequencies of these settings, x first.
    pub closed spec fn spec_frequency(&self) -> (u32, u32) {
        self.frequency
    }

    /// The offsets of these settings, x first.
    pub closed spec fn spec_offset(&self) -> (u32, u32) {
        self.offset
    }

    /// Makes settings out of the seed and the patterns of the two frequencies
    /// and the two offsets. Refuses them, with `None`, unless both frequencies
    /// are finite numbers greater than zero.
    pub fn new(seed: u32, frequency_x: u32, frequency_y: u32, offset_x: u32, offset_y: u32) -> (made:
        Option<VoronoiSettings>)
        ensures
            made is Some <==> is_positive_finite(frequency_x) && is_positive_finite(frequency_y),
            made matches Some(settings) ==> {
                &&& settings.spec_seed() == seed
                &&& settings.spec_frequency() == (frequency_x, frequency_y)
                &&& settings.spec_offset() == (offset_x, offset_y)
            },
    {
        if positive_finite(frequency_x) && positive_finite(frequency_y) {
            Some(
                VoronoiSettings {
                    seed,
                    frequency: (frequency_x, frequency_y),
                    offset: (offset_x, offset_y),
                },
            )
        } else {
            None
        }
    }

    /// The seed.
    #[verifier::when_used_as_spec(spec_seed)]
    pub fn seed(&self) -> (seed: u32)
        ensures
            seed == self.spec_seed(),
    {
        self.seed
    }

    /// The patterns of the two frequencies, x first. Both are finite numbers
    /// greater than zero.
    #[verifier::when_used_as_spec(spec_frequency)]
    pub fn frequency(&self) -> (frequency: (u32, u32))
        ensures
            frequency == self.spec_frequency(),
            is_positive_finite(frequency.0),
            is_positive_finite(frequency.1),
    {
        proof {
            use_type_invariant(self);
        }
        self.frequency
    }

    /// The patterns of the two offsets, x first.
    #[verifier::when_used_as_spec(spec_offset)]
    pub fn offset(&self) -> (offset: (u32, u32))
        ensures
            offset == self.spec_offset(),
    {
        self.offset
    }
}

} // verus!
