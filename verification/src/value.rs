//! The generation interface: a value of a type is an exact function of the
//! source's draw sequence and of where in that sequence the source stands.

use vstd::prelude::*;
use crate::entropy::EntropySource;

verus! {

/// A type whose values can be generated from an entropy source.
///
/// `value_of` and `cost_of` pin down, for every draw sequence `d` and start
/// position `start`, which value is produced and how many raw draws it takes.
/// `rand` must return exactly that value and advance the source by exactly
/// that many draws: generation is deterministic in the draw sequence, and
/// composite types consume their constituents' draws left to right.
pub trait Rand: Sized {
    /// The value generated from draw sequence `d` starting at `start`.
    spec fn value_of(d: spec_fn(nat) -> u64, start: nat) -> Self;

    /// How many raw draws generation consumes from `d` starting at `start`.
    spec fn cost_of(d: spec_fn(nat) -> u64, start: nat) -> nat;

    /// Whether the draw sequence supplies what generation needs.  This is
    /// unconditionally true for every type except those that reject draws:
    /// a rejection sampler keeps redrawing until a draw is accepted, so it
    /// returns only when some draw at or after `start` is acceptable.
    open spec fn can_generate(d: spec_fn(nat) -> u64, start: nat) -> bool {
        true
    }

    /// Generate one value by drawing from `rng`.
    fn rand<R: EntropySource>(rng: &mut R) -> (r: Self)
        requires
            Self::can_generate(old(rng).draws(), old(rng).consumed()),
        ensures
            final(rng).draws() == old(rng).draws(),
            final(rng).consumed() == old(rng).consumed() + Self::cost_of(
                old(rng).draws(),
                old(rng).consumed(),
            ),
            r == Self::value_of(old(rng).draws(), old(rng).consumed()),
    ;
}

} // verus!
