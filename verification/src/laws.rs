//! Crate-wide laws of generation, each proved from the generation
//! contracts alone.

use vstd::prelude::*;
use crate::compose::seq_cost_of;
use crate::compose::seq_value_of;
use crate::ints::low8;
use crate::ints::low16;
use crate::entropy::low32;
use crate::scalar::draw_accepted;
use crate::scalar::first_accepted;
use crate::scalar::is_scalar_value;
use crate::scalar::lemma_first_accepted_exists;
use crate::scalar::mask21;
use crate::value::Rand;

verus! {

/// Generation is deterministic in the draw sequence: two draw sequences
/// that agree at every position generate the same value at the same
/// cost, for every type, from every start position.
pub proof fn lemma_generation_deterministic<T: Rand>(
    d1: spec_fn(nat) -> u64,
    d2: spec_fn(nat) -> u64,
    start: nat,
)
    requires
        forall|i: nat| #[trigger] d1(i) == d2(i),
    ensures
        T::value_of(d1, start) == T::value_of(d2, start),
        T::cost_of(d1, start) == T::cost_of(d2, start),
{
    assert(d1 =~= d2);
}

/// Tuple generation runs left to right: each constituent starts where
/// the one before it stopped, here spelled out for a three-constituent
/// tuple of truncated integer draws.
pub proof fn lemma_tuple_order(d: spec_fn(nat) -> u64, start: nat)
    ensures
        <(u8, u16, u32) as Rand>::value_of(d, start) == (
            low8(d(start)),
            low16(d((start + 1) as nat)),
            low32(d((start + 2) as nat)),
        ),
        <(u8, u16, u32) as Rand>::cost_of(d, start) == 3,
{
}

/// Generating a fixed-size sequence of length zero consumes no draws and
/// yields the empty sequence.
pub proof fn lemma_empty_sequence_free<T: Rand>(d: spec_fn(nat) -> u64, start: nat)
    ensures
        seq_cost_of::<T>(d, start, 0) == 0,
        seq_value_of::<T>(d, start, 0) == Seq::<T>::empty(),
{
    assert(seq_value_of::<T>(d, start, 0) =~= Seq::<T>::empty());
}

/// An optional value that resolves to absent consumes exactly the one
/// boolean draw that decided it, and no inner draws.
pub proof fn lemma_absent_option_single_draw<T: Rand>(d: spec_fn(nat) -> u64, start: nat)
    requires
        d(start) % 2 == 0,
    ensures
        <Option<T> as Rand>::value_of(d, start) is None,
        <Option<T> as Rand>::cost_of(d, start) == 1,
{
}

/// The sampler's result carries the first accepted 21-bit masked draw:
/// its code is that masked value, which is never in the surrogate range
/// and never exceeds the maximum code point.
pub proof fn lemma_sampler_keeps_the_first_accepted_draw(d: spec_fn(nat) -> u64, start: nat)
    requires
        <char as Rand>::can_generate(d, start),
    ensures
        (<char as Rand>::value_of(d, start)) as u32 == mask21(d(first_accepted(d, start))),
        is_scalar_value(mask21(d(first_accepted(d, start)))),
{
    let k = choose|k: nat| start <= k && draw_accepted(d, k);
    lemma_first_accepted_exists(d, start, k);
    let v = mask21(d(first_accepted(d, start)));
    assert(exists|c: char| #[trigger] (c as u32) == v);
    let w = choose|c: char| #[trigger] (c as u32) == v;
    crate::scalar::lemma_char_of_cast(w);
}

/// Every generated character is a valid Unicode scalar value: at most
/// the maximum code point and outside the surrogate range.  The sampler
/// can only return characters, and every character's code is a valid
/// scalar value.
pub proof fn lemma_generated_char_is_scalar_value(c: char)
    ensures
        is_scalar_value(c as u32),
        c as u32 <= 0x10FFFF,
        !(0xD800 <= c as u32 <= 0xDFFF),
{
    vstd::utf8::char_is_scalar(c);
}

} // verus!
