//! Unicode scalar values by rejection sampling.
//!
//! A 32-bit draw is masked to its low 21 bits and kept only when the
//! masked value is a valid scalar value: at most `0x10FFFF` and outside
//! the UTF-16 surrogate range.  An invalid value causes a redraw; about
//! 0.2% of 21-bit values are invalid, so the loop succeeds on the first
//! attempt almost every time, but it has no bound on its iterations.

use vstd::prelude::*;
use crate::entropy::EntropySource;
use crate::value::Rand;

verus! {

/// The low 21 bits of a raw draw.
pub open spec fn mask21(x: u64) -> u32 {
    (x % 0x20_0000) as u32
}

/// A valid Unicode scalar value: at most the maximum code point and not
/// a UTF-16 surrogate.
pub open spec fn is_scalar_value(v: u32) -> bool {
    v <= 0x10FFFF && !(0xD800 <= v <= 0xDFFF)
}

/// Whether the draw at position `i` is kept by the rejection sampler.
pub open spec fn draw_accepted(d: spec_fn(nat) -> u64, i: nat) -> bool {
    is_scalar_value(mask21(d(i)))
}

/// The position of the first draw at or after `start` that the sampler
/// keeps.  Meaningful only when some draw is accepted; the sampler never
/// returns otherwise.
pub open spec fn first_accepted(d: spec_fn(nat) -> u64, start: nat) -> nat {
    choose|k: nat|
        start <= k && draw_accepted(d, k) && (forall|j: nat|
            start <= j < k ==> !draw_accepted(d, j))
}

/// The character whose code is `v`.  Meaningful only for valid scalar
/// values, where exactly one character has that code.
pub open spec fn char_of(v: u32) -> char {
    choose|c: char| #[trigger] (c as u32) == v
}

/// Exactly one character casts to a given code.
pub proof fn lemma_char_of_cast(c: char)
    ensures
        char_of(c as u32) == c,
{
    let u = c as u32;
    let c2 = choose|x: char| #[trigger] (x as u32) == u;
    vstd::utf8::char_u32_cast(c, u);
    vstd::utf8::char_u32_cast(c2, u);
}

/// Wherever some draw at or after `start` is accepted, a first accepted
/// draw exists, and `first_accepted` names it.
pub proof fn lemma_first_accepted_exists(d: spec_fn(nat) -> u64, start: nat, k: nat)
    requires
        start <= k,
        draw_accepted(d, k),
    ensures
        ({
            let f = first_accepted(d, start);
            &&& start <= f
            &&& draw_accepted(d, f)
            &&& forall|j: nat| start <= j < f ==> !draw_accepted(d, j)
        }),
    decreases k - start,
{
    if draw_accepted(d, start) {
        assert(start <= start && draw_accepted(d, start) && (forall|j: nat|
            start <= j < start ==> !draw_accepted(d, j)));
    } else {
        lemma_first_accepted_exists(d, (start + 1) as nat, k);
        let f1 = first_accepted(d, (start + 1) as nat);
        assert(start <= f1 && draw_accepted(d, f1) && (forall|j: nat|
            start <= j < f1 ==> !draw_accepted(d, j)));
    }
}

/// The accepted position is the one the sampler stops at.
proof fn lemma_first_accepted(d: spec_fn(nat) -> u64, start: nat, k: nat)
    requires
        start <= k,
        draw_accepted(d, k),
        forall|j: nat| start <= j < k ==> !draw_accepted(d, j),
    ensures
        first_accepted(d, start) == k,
{
    lemma_first_accepted_exists(d, start, k);
    let w = first_accepted(d, start);
    if w < k {
        assert(!draw_accepted(d, w));
    }
    if k < w {
        assert(!draw_accepted(d, k));
    }
}

/// Relies on char::from_u32: it returns the character with the given
/// code exactly when the code is a valid Unicode scalar value, that is
/// at most 0x10FFFF and not in the surrogate range 0xD800 to 0xDFFF.
pub assume_specification[ char::from_u32 ](v: u32) -> (r: Option<char>)
    ensures
        r is Some <==> is_scalar_value(v),
        r matches Some(c) ==> c as u32 == v,
;

impl Rand for char {
    /// The first accepted draw, masked to 21 bits, read as a character.
    open spec fn value_of(d: spec_fn(nat) -> u64, start: nat) -> char {
        char_of(mask21(d(first_accepted(d, start))))
    }

    /// One draw per attempt, up to and including the first accepted one.
    open spec fn cost_of(d: spec_fn(nat) -> u64, start: nat) -> nat {
        (first_accepted(d, start) + 1 - start) as nat
    }

    /// The sampler returns only when some draw at or after `start` is
    /// acceptable.  A source whose draws were all invalid code points
    /// would keep it redrawing forever; this names the (statistically
    /// near-certain) condition under which the retry loop stops.
    open spec fn can_generate(d: spec_fn(nat) -> u64, start: nat) -> bool {
        exists|k: nat| start <= k && draw_accepted(d, k)
    }

    fn rand<R: EntropySource>(rng: &mut R) -> (r: char) {
        proof {
            let k = choose|k: nat|
                old(rng).consumed() <= k && draw_accepted(old(rng).draws(), k);
            lemma_first_accepted_exists(old(rng).draws(), old(rng).consumed(), k);
        }
        let ghost stop = first_accepted(old(rng).draws(), old(rng).consumed());
        loop
            invariant
                rng.draws() == old(rng).draws(),
                rng.consumed() >= old(rng).consumed(),
                rng.consumed() <= stop,
                stop == first_accepted(old(rng).draws(), old(rng).consumed()),
                draw_accepted(old(rng).draws(), stop),
                forall|j: nat|
                    old(rng).consumed() <= j < rng.consumed() ==> !draw_accepted(
                        old(rng).draws(),
                        j,
                    ),
            decreases stop - rng.consumed(),
        {
            let ghost at = rng.consumed();
            let w = rng.next_u32();
            let m = w & 0x001F_FFFF;
            proof {
                let x = (old(rng).draws())(at);
                assert(((x % 0x1_0000_0000) as u32) & 0x001F_FFFF == (x % 0x20_0000) as u32)
                    by (bit_vector);
            }
            match char::from_u32(m) {
                Some(c) => {
                    proof {
                        lemma_first_accepted(old(rng).draws(), old(rng).consumed(), at);
                        lemma_char_of_cast(c);
                    }
                    return c;
                },
                None => {},
            }
        }
    }
}

} // verus!
