//! The bootstrap path for types that construct themselves from an
//! entropy source directly, rather than through elementary draws.
//!
//! Such a type provides a from-source constructor that may fail; the
//! adapter invokes it and unwraps, trusting the constructor completely
//! and adding no recovery path.  The constructor's failure is excluded up
//! front rather than handled: a failed construction would have to abort
//! the calling operation, and this crate's functions do not abort.

use vstd::prelude::*;
use crate::entropy::EntropySource;

verus! {

/// Why a from-source constructor could not build an instance.
#[derive(Clone, Copy, Debug, PartialEq, Eq, Structural)]
pub enum SeedError {
    /// The source could not supply the entropy the constructor needed.
    InsufficientEntropy,
    /// The seed material the constructor derived was not acceptable.
    InvalidSeed,
}

/// A type that can construct itself directly from an entropy source.
///
/// As with generation, construction is pinned to the draw sequence:
/// whether it succeeds, what it builds, and how many draws it takes are
/// exact functions of the sequence and the start position.
pub trait FromEntropy: Sized {
    /// Whether construction from draw sequence `d` at `start` succeeds.
    spec fn constructs(d: spec_fn(nat) -> u64, start: nat) -> bool;

    /// The instance built from draw sequence `d` at `start`.
    spec fn constructed(d: spec_fn(nat) -> u64, start: nat) -> Self;

    /// How many raw draws construction consumes.
    spec fn construction_cost(d: spec_fn(nat) -> u64, start: nat) -> nat;

    /// Build an instance by drawing seed material from `rng`.
    fn from_source<R: EntropySource>(rng: &mut R) -> (r: Result<Self, SeedError>)
        ensures
            final(rng).draws() == old(rng).draws(),
            final(rng).consumed() == old(rng).consumed() + Self::construction_cost(
                old(rng).draws(),
                old(rng).consumed(),
            ),
            r is Ok <==> Self::constructs(old(rng).draws(), old(rng).consumed()),
            r matches Ok(v) ==> v == Self::constructed(old(rng).draws(), old(rng).consumed()),
    ;
}

/// Produce a value of any seedable type by invoking its from-source
/// constructor and unwrapping the result.
///
/// The caller must know that construction succeeds on the draws the
/// source will supply: on a failing constructor this adapter would have
/// no recovery path, so failing draws are excluded here instead.
pub fn from_seedable<T: FromEntropy, R: EntropySource>(rng: &mut R) -> (t: T)
    requires
        T::constructs(old(rng).draws(), old(rng).consumed()),
    ensures
        final(rng).draws() == old(rng).draws(),
        final(rng).consumed() == old(rng).consumed() + T::construction_cost(
            old(rng).draws(),
            old(rng).consumed(),
        ),
        t == T::constructed(old(rng).draws(), old(rng).consumed()),
{
    match T::from_source(rng) {
        Ok(v) => v,
        Err(_) => vstd::pervasive::unreached(),
    }
}

/// A constant source seeds itself from any other source: its constant is
/// one raw draw.  Construction never fails and costs exactly one draw.
impl FromEntropy for crate::sources::ConstantSource {
    open spec fn constructs(d: spec_fn(nat) -> u64, start: nat) -> bool {
        true
    }

    open spec fn constructed(d: spec_fn(nat) -> u64, start: nat) -> Self {
        crate::sources::ConstantSource { value: d(start), spent: Ghost(0nat) }
    }

    open spec fn construction_cost(d: spec_fn(nat) -> u64, start: nat) -> nat {
        1
    }

    fn from_source<R: EntropySource>(rng: &mut R) -> (r: Result<Self, SeedError>) {
        let seed = rng.next_u64();
        Ok(crate::sources::ConstantSource { value: seed, spent: Ghost(0nat) })
    }
}

} // verus!
