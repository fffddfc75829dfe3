//! The capability interface through which every draw of randomness is made.
//!
//! A source is modelled by the mathematical sequence of raw 64-bit draws it
//! will ever produce (`draws`) together with how many it has produced so far
//! (`consumed`).  A 32-bit draw hands out the low half of the next raw draw.

use vstd::prelude::*;

verus! {

/// The low 32 bits of a raw 64-bit draw.
pub open spec fn low32(x: u64) -> u32 {
    (x % 0x1_0000_0000) as u32
}

/// A source of uniformly distributed raw draws.
///
/// Implementations decide the draws; the model only ties what the methods
/// return to the draw sequence, so that everything built on top of a source
/// is an exact function of that sequence.
pub trait EntropySource: Sized {
    /// The full sequence of raw draws this source produces, as a function
    /// from the draw's index to its 64-bit value.
    spec fn draws(&self) -> spec_fn(nat) -> u64;

    /// How many raw draws have been consumed so far.
    spec fn consumed(&self) -> nat;

    /// Produce the next raw draw, truncated to its low 32 bits.
    fn next_u32(&mut self) -> (r: u32)
        ensures
            final(self).draws() == old(self).draws(),
            final(self).consumed() == old(self).consumed() + 1,
            r == low32((old(self).draws())(old(self).consumed())),
    ;

    /// Produce the next raw 64-bit draw.
    fn next_u64(&mut self) -> (r: u64)
        ensures
            final(self).draws() == old(self).draws(),
            final(self).consumed() == old(self).consumed() + 1,
            r == (old(self).draws())(old(self).consumed()),
    ;
}

/// Byte `k` of a raw draw, little-endian: the `k`-th lowest byte for
/// `k` up to 7.
pub open spec fn byte_of_draw(x: u64, k: nat) -> u8 {
    if k == 0 {
        (x % 0x100) as u8
    } else if k == 1 {
        ((x / 0x100) % 0x100) as u8
    } else if k == 2 {
        ((x / 0x1_0000) % 0x100) as u8
    } else if k == 3 {
        ((x / 0x100_0000) % 0x100) as u8
    } else if k == 4 {
        ((x / 0x1_0000_0000) % 0x100) as u8
    } else if k == 5 {
        ((x / 0x100_0000_0000) % 0x100) as u8
    } else if k == 6 {
        ((x / 0x1_0000_0000_0000) % 0x100) as u8
    } else if k == 7 {
        ((x / 0x100_0000_0000_0000) % 0x100) as u8
    } else {
        0
    }
}

/// Fill a byte buffer with uniform bytes: each raw draw supplies eight
/// bytes, little-endian, and a final short chunk discards the draw's
/// upper bytes.  Filling an empty buffer consumes no draws.
pub fn fill_bytes<R: EntropySource>(rng: &mut R, dest: &mut Vec<u8>)
    ensures
        final(rng).draws() == old(rng).draws(),
        final(dest)@.len() == old(dest)@.len(),
        final(rng).consumed() == old(rng).consumed() + (final(dest)@.len() + 7) as nat / 8,
        forall|i: int|
            0 <= i < final(dest)@.len() ==> final(dest)@[i] == byte_of_draw(
                (old(rng).draws())((old(rng).consumed() + i / 8) as nat),
                (i % 8) as nat,
            ),
{
    let n = dest.len();
    let mut j: usize = 0;
    while j < n
        invariant
            j <= n,
            n == dest@.len() == old(dest)@.len(),
            j % 8 == 0 || j == n,
            rng.draws() == old(rng).draws(),
            rng.consumed() == old(rng).consumed() + (j + 7) as nat / 8,
            forall|i: int|
                0 <= i < j ==> dest@[i] == byte_of_draw(
                    (old(rng).draws())((old(rng).consumed() + i / 8) as nat),
                    (i % 8) as nat,
                ),
        decreases n - j,
    {
        let x = rng.next_u64();
        dest.set(j, (x % 0x100) as u8);
        j = j + 1;
        if j < n {
            dest.set(j, ((x / 0x100) % 0x100) as u8);
            j = j + 1;
        }
        if j < n {
            dest.set(j, ((x / 0x1_0000) % 0x100) as u8);
            j = j + 1;
        }
        if j < n {
            dest.set(j, ((x / 0x100_0000) % 0x100) as u8);
            j = j + 1;
        }
        if j < n {
            dest.set(j, ((x / 0x1_0000_0000) % 0x100) as u8);
            j = j + 1;
        }
        if j < n {
            dest.set(j, ((x / 0x100_0000_0000) % 0x100) as u8);
            j = j + 1;
        }
        if j < n {
            dest.set(j, ((x / 0x1_0000_0000_0000) % 0x100) as u8);
            j = j + 1;
        }
        if j < n {
            dest.set(j, ((x / 0x100_0000_0000_0000) % 0x100) as u8);
            j = j + 1;
        }
    }
}

} // verus!
