//! Structurally composed values: booleans, the unit value, optional
//! values, fixed-arity tuples, and fixed-size sequences.
//!
//! Every constituent is generated by delegating to its own `Rand`
//! implementation, in a fixed left-to-right order, so a composite value is
//! an exact function of the draw sequence and composition is reproducible
//! with a deterministic source.

use vstd::prelude::*;
use crate::entropy::EntropySource;
use crate::value::Rand;

verus! {

impl Rand for bool {
    /// The low bit of one byte-width draw decides the boolean.
    open spec fn value_of(d: spec_fn(nat) -> u64, start: nat) -> bool {
        d(start) % 2 == 1
    }

    open spec fn cost_of(d: spec_fn(nat) -> u64, start: nat) -> nat {
        1
    }

    fn rand<R: EntropySource>(rng: &mut R) -> (r: bool) {
        let b = u8::rand(rng);
        proof {
            let x = (old(rng).draws())(old(rng).consumed());
            assert(((x % 0x100) as u8 & 1 == 1) == (x % 2 == 1)) by (bit_vector);
        }
        b & 1 == 1
    }
}

impl Rand for () {
    /// The unit value takes no draws.
    open spec fn value_of(d: spec_fn(nat) -> u64, start: nat) -> () {
        ()
    }

    open spec fn cost_of(d: spec_fn(nat) -> u64, start: nat) -> nat {
        0
    }

    fn rand<R: EntropySource>(rng: &mut R) -> (r: ()) {
        ()
    }
}

impl<T: Rand> Rand for Option<T> {
    /// One boolean draw always comes first; only a true draw generates
    /// the inner value.
    open spec fn value_of(d: spec_fn(nat) -> u64, start: nat) -> Option<T> {
        if d(start) % 2 == 1 {
            Some(T::value_of(d, (start + 1) as nat))
        } else {
            None
        }
    }

    open spec fn cost_of(d: spec_fn(nat) -> u64, start: nat) -> nat {
        if d(start) % 2 == 1 {
            (1 + T::cost_of(d, (start + 1) as nat)) as nat
        } else {
            1
        }
    }

    open spec fn can_generate(d: spec_fn(nat) -> u64, start: nat) -> bool {
        d(start) % 2 == 1 ==> T::can_generate(d, (start + 1) as nat)
    }

    fn rand<R: EntropySource>(rng: &mut R) -> (r: Option<T>) {
        if bool::rand(rng) {
            Some(T::rand(rng))
        } else {
            None
        }
    }
}

impl<A: Rand> Rand for (A,) {
    open spec fn value_of(d: spec_fn(nat) -> u64, start: nat) -> (A,) {
        (A::value_of(d, start),)
    }

    open spec fn cost_of(d: spec_fn(nat) -> u64, start: nat) -> nat {
        A::cost_of(d, start)
    }

    open spec fn can_generate(d: spec_fn(nat) -> u64, start: nat) -> bool {
        A::can_generate(d, start)
    }

    fn rand<R: EntropySource>(rng: &mut R) -> (r: (A,)) {
        let v0 = A::rand(rng);
        (v0,)
    }
}

impl<A: Rand, B: Rand> Rand for (A, B) {
    open spec fn value_of(d: spec_fn(nat) -> u64, start: nat) -> (A, B) {
        let s1 = (start + A::cost_of(d, start)) as nat;
        (A::value_of(d, start), B::value_of(d, s1))
    }

    open spec fn cost_of(d: spec_fn(nat) -> u64, start: nat) -> nat {
        let s1 = (start + A::cost_of(d, start)) as nat;
        ((s1 + B::cost_of(d, s1)) - start) as nat
    }

    open spec fn can_generate(d: spec_fn(nat) -> u64, start: nat) -> bool {
        let s1 = (start + A::cost_of(d, start)) as nat;
        A::can_generate(d, start) && B::can_generate(d, s1)
    }

    fn rand<R: EntropySource>(rng: &mut R) -> (r: (A, B)) {
        let v0 = A::rand(rng);
        let v1 = B::rand(rng);
        (v0, v1)
    }
}

impl<A: Rand, B: Rand, C: Rand> Rand for (A, B, C) {
    open spec fn value_of(d: spec_fn(nat) -> u64, start: nat) -> (A, B, C) {
        let s1 = (start + A::cost_of(d, start)) as nat;
        let s2 = (s1 + B::cost_of(d, s1)) as nat;
        (A::value_of(d, start), B::value_of(d, s1), C::value_of(d, s2))
    }

    open spec fn cost_of(d: spec_fn(nat) -> u64, start: nat) -> nat {
        let s1 = (start + A::cost_of(d, start)) as nat;
        let s2 = (s1 + B::cost_of(d, s1)) as nat;
        ((s2 + C::cost_of(d, s2)) - start) as nat
    }

    open spec fn can_generate(d: spec_fn(nat) -> u64, start: nat) -> bool {
        let s1 = (start + A::cost_of(d, start)) as nat;
        let s2 = (s1 + B::cost_of(d, s1)) as nat;
        A::can_generate(d, start) && B::can_generate(d, s1) && C::can_generate(d, s2)
    }

    fn rand<R: EntropySource>(rng: &mut R) -> (r: (A, B, C)) {
        let v0 = A::rand(rng);
        let v1 = B::rand(rng);
        let v2 = C::rand(rng);
        (v0, v1, v2)
    }
}

impl<A: Rand, B: Rand, C: Rand, D: Rand> Rand for (A, B, C, D) {
    open spec fn value_of(d: spec_fn(nat) -> u64, start: nat) -> (A, B, C, D) {
        let s1 = (start + A::cost_of(d, start)) as nat;
        let s2 = (s1 + B::cost_of(d, s1)) as nat;
        let s3 = (s2 + C::cost_of(d, s2)) as nat;
        (A::value_of(d, start), B::value_of(d, s1), C::value_of(d, s2), D::value_of(d, s3))
    }

    open spec fn cost_of(d: spec_fn(nat) -> u64, start: nat) -> nat {
        let s1 = (start + A::cost_of(d, start)) as nat;
        let s2 = (s1 + B::cost_of(d, s1)) as nat;
        let s3 = (s2 + C::cost_of(d, s2)) as nat;
        ((s3 + D::cost_of(d, s3)) - start) as nat
    }

    open spec fn can_generate(d: spec_fn(nat) -> u64, start: nat) -> bool {
        let s1 = (start + A::cost_of(d, start)) as nat;
        let s2 = (s1 + B::cost_of(d, s1)) as nat;
        let s3 = (s2 + C::cost_of(d, s2)) as nat;
        A::can_generate(d, start) && B::can_generate(d, s1) && C::can_generate(d, s2) && D::can_generate(d, s3)
    }

    fn rand<R: EntropySource>(rng: &mut R) -> (r: (A, B, C, D)) {
        let v0 = A::rand(rng);
        let v1 = B::rand(rng);
        let v2 = C::rand(rng);
        let v3 = D::rand(rng);
        (v0, v1, v2, v3)
    }
}

impl<A: Rand, B: Rand, C: Rand, D: Rand, E: Rand> Rand for (A, B, C, D, E) {
    open spec fn value_of(d: spec_fn(nat) -> u64, start: nat) -> (A, B, C, D, E) {
        let s1 = (start + A::cost_of(d, start)) as nat;
        let s2 = (s1 + B::cost_of(d, s1)) as nat;
        let s3 = (s2 + C::cost_of(d, s2)) as nat;
        let s4 = (s3 + D::cost_of(d, s3)) as nat;
        (A::value_of(d, start), B::value_of(d, s1), C::value_of(d, s2), D::value_of(d, s3), E::value_of(d, s4))
    }

    open spec fn cost_of(d: spec_fn(nat) -> u64, start: nat) -> nat {
        let s1 = (start + A::cost_of(d, start)) as nat;
        let s2 = (s1 + B::cost_of(d, s1)) as nat;
        let s3 = (s2 + C::cost_of(d, s2)) as nat;
        let s4 = (s3 + D::cost_of(d, s3)) as nat;
        ((s4 + E::cost_of(d, s4)) - start) as nat
    }

    open spec fn can_generate(d: spec_fn(nat) -> u64, start: nat) -> bool {
        let s1 = (start + A::cost_of(d, start)) as nat;
        let s2 = (s1 + B::cost_of(d, s1)) as nat;
        let s3 = (s2 + C::cost_of(d, s2)) as nat;
        let s4 = (s3 + D::cost_of(d, s3)) as nat;
        A::can_generate(d, start) && B::can_generate(d, s1) && C::can_generate(d, s2) && D::can_generate(d, s3) && E::can_generate(d, s4)
    }

    fn rand<R: EntropySource>(rng: &mut R) -> (r: (A, B, C, D, E)) {
        let v0 = A::rand(rng);
        let v1 = B::rand(rng);
        let v2 = C::rand(rng);
        let v3 = D::rand(rng);
        let v4 = E::rand(rng);
        (v0, v1, v2, v3, v4)
    }
}

impl<A: Rand, B: Rand, C: Rand, D: Rand, E: Rand, F: Rand> Rand for (A, B, C, D, E, F) {
    open spec fn value_of(d: spec_fn(nat) -> u64, start: nat) -> (A, B, C, D, E, F) {
        let s1 = (start + A::cost_of(d, start)) as nat;
        let s2 = (s1 + B::cost_of(d, s1)) as nat;
        let s3 = (s2 + C::cost_of(d, s2)) as nat;
        let s4 = (s3 + D::cost_of(d, s3)) as nat;
        let s5 = (s4 + E::cost_of(d, s4)) as nat;
        (A::value_of(d, start), B::value_of(d, s1), C::value_of(d, s2), D::value_of(d, s3), E::value_of(d, s4), F::value_of(d, s5))
    }

    open spec fn cost_of(d: spec_fn(nat) -> u64, start: nat) -> nat {
        let s1 = (start + A::cost_of(d, start)) as nat;
        let s2 = (s1 + B::cost_of(d, s1)) as nat;
        let s3 = (s2 + C::cost_of(d, s2)) as nat;
        let s4 = (s3 + D::cost_of(d, s3)) as nat;
        let s5 = (s4 + E::cost_of(d, s4)) as nat;
        ((s5 + F::cost_of(d, s5)) - start) as nat
    }

    open spec fn can_generate(d: spec_fn(nat) -> u64, start: nat) -> bool {
        let s1 = (start + A::cost_of(d, start)) as nat;
        let s2 = (s1 + B::cost_of(d, s1)) as nat;
        let s3 = (s2 + C::cost_of(d, s2)) as nat;
        let s4 = (s3 + D::cost_of(d, s3)) as nat;
        let s5 = (s4 + E::cost_of(d, s4)) as nat;
        A::can_generate(d, start) && B::can_generate(d, s1) && C::can_generate(d, s2) && D::can_generate(d, s3) && E::can_generate(d, s4) && F::can_generate(d, s5)
    }

    fn rand<R: EntropySource>(rng: &mut R) -> (r: (A, B, C, D, E, F)) {
        let v0 = A::rand(rng);
        let v1 = B::rand(rng);
        let v2 = C::rand(rng);
        let v3 = D::rand(rng);
        let v4 = E::rand(rng);
        let v5 = F::rand(rng);
        (v0, v1, v2, v3, v4, v5)
    }
}

impl<A: Rand, B: Rand, C: Rand, D: Rand, E: Rand, F: Rand, G: Rand> Rand for (A, B, C, D, E, F, G) {
    open spec fn value_of(d: spec_fn(nat) -> u64, start: nat) -> (A, B, C, D, E, F, G) {
        let s1 = (start + A::cost_of(d, start)) as nat;
        let s2 = (s1 + B::cost_of(d, s1)) as nat;
        let s3 = (s2 + C::cost_of(d, s2)) as nat;
        let s4 = (s3 + D::cost_of(d, s3)) as nat;
        let s5 = (s4 + E::cost_of(d, s4)) as nat;
        let s6 = (s5 + F::cost_of(d, s5)) as nat;
        (A::value_of(d, start), B::value_of(d, s1), C::value_of(d, s2), D::value_of(d, s3), E::value_of(d, s4), F::value_of(d, s5), G::value_of(d, s6))
    }

    open spec fn cost_of(d: spec_fn(nat) -> u64, start: nat) -> nat {
        let s1 = (start + A::cost_of(d, start)) as nat;
        let s2 = (s1 + B::cost_of(d, s1)) as nat;
        let s3 = (s2 + C::cost_of(d, s2)) as nat;
        let s4 = (s3 + D::cost_of(d, s3)) as nat;
        let s5 = (s4 + E::cost_of(d, s4)) as nat;
        let s6 = (s5 + F::cost_of(d, s5)) as nat;
        ((s6 + G::cost_of(d, s6)) - start) as nat
    }

    open spec fn can_generate(d: spec_fn(nat) -> u64, start: nat) -> bool {
        let s1 = (start + A::cost_of(d, start)) as nat;
        let s2 = (s1 + B::cost_of(d, s1)) as nat;
        let s3 = (s2 + C::cost_of(d, s2)) as nat;
        let s4 = (s3 + D::cost_of(d, s3)) as nat;
        let s5 = (s4 + E::cost_of(d, s4)) as nat;
        let s6 = (s5 + F::cost_of(d, s5)) as nat;
        A::can_generate(d, start) && B::can_generate(d, s1) && C::can_generate(d, s2) && D::can_generate(d, s3) && E::can_generate(d, s4) && F::can_generate(d, s5) && G::can_generate(d, s6)
    }

    fn rand<R: EntropySource>(rng: &mut R) -> (r: (A, B, C, D, E, F, G)) {
        let v0 = A::rand(rng);
        let v1 = B::rand(rng);
        let v2 = C::rand(rng);
        let v3 = D::rand(rng);
        let v4 = E::rand(rng);
        let v5 = F::rand(rng);
        let v6 = G::rand(rng);
        (v0, v1, v2, v3, v4, v5, v6)
    }
}

impl<A: Rand, B: Rand, C: Rand, D: Rand, E: Rand, F: Rand, G: Rand, H: Rand> Rand for (A, B, C, D, E, F, G, H) {
    open spec fn value_of(d: spec_fn(nat) -> u64, start: nat) -> (A, B, C, D, E, F, G, H) {
        let s1 = (start + A::cost_of(d, start)) as nat;
        let s2 = (s1 + B::cost_of(d, s1)) as nat;
        let s3 = (s2 + C::cost_of(d, s2)) as nat;
        let s4 = (s3 + D::cost_of(d, s3)) as nat;
        let s5 = (s4 + E::cost_of(d, s4)) as nat;
        let s6 = (s5 + F::cost_of(d, s5)) as nat;
        let s7 = (s6 + G::cost_of(d, s6)) as nat;
        (A::value_of(d, start), B::value_of(d, s1), C::value_of(d, s2), D::value_of(d, s3), E::value_of(d, s4), F::value_of(d, s5), G::value_of(d, s6), H::value_of(d, s7))
    }

    open spec fn cost_of(d: spec_fn(nat) -> u64, start: nat) -> nat {
        let s1 = (start + A::cost_of(d, start)) as nat;
        let s2 = (s1 + B::cost_of(d, s1)) as nat;
        let s3 = (s2 + C::cost_of(d, s2)) as nat;
        let s4 = (s3 + D::cost_of(d, s3)) as nat;
        let s5 = (s4 + E::cost_of(d, s4)) as nat;
        let s6 = (s5 + F::cost_of(d, s5)) as nat;
        let s7 = (s6 + G::cost_of(d, s6)) as nat;
        ((s7 + H::cost_of(d, s7)) - start) as nat
    }

    open spec fn can_generate(d: spec_fn(nat) -> u64, start: nat) -> bool {
        let s1 = (start + A::cost_of(d, start)) as nat;
        let s2 = (s1 + B::cost_of(d, s1)) as nat;
        let s3 = (s2 + C::cost_of(d, s2)) as nat;
        let s4 = (s3 + D::cost_of(d, s3)) as nat;
        let s5 = (s4 + E::cost_of(d, s4)) as nat;
        let s6 = (s5 + F::cost_of(d, s5)) as nat;
        let s7 = (s6 + G::cost_of(d, s6)) as nat;
        A::can_generate(d, start) && B::can_generate(d, s1) && C::can_generate(d, s2) && D::can_generate(d, s3) && E::can_generate(d, s4) && F::can_generate(d, s5) && G::can_generate(d, s6) && H::can_generate(d, s7)
    }

    fn rand<R: EntropySource>(rng: &mut R) -> (r: (A, B, C, D, E, F, G, H)) {
        let v0 = A::rand(rng);
        let v1 = B::rand(rng);
        let v2 = C::rand(rng);
        let v3 = D::rand(rng);
        let v4 = E::rand(rng);
        let v5 = F::rand(rng);
        let v6 = G::rand(rng);
        let v7 = H::rand(rng);
        (v0, v1, v2, v3, v4, v5, v6, v7)
    }
}

impl<A: Rand, B: Rand, C: Rand, D: Rand, E: Rand, F: Rand, G: Rand, H: Rand, I: Rand> Rand for (A, B, C, D, E, F, G, H, I) {
    open spec fn value_of(d: spec_fn(nat) -> u64, start: nat) -> (A, B, C, D, E, F, G, H, I) {
        let s1 = (start + A::cost_of(d, start)) as nat;
        let s2 = (s1 + B::cost_of(d, s1)) as nat;
        let s3 = (s2 + C::cost_of(d, s2)) as nat;
        let s4 = (s3 + D::cost_of(d, s3)) as nat;
        let s5 = (s4 + E::cost_of(d, s4)) as nat;
        let s6 = (s5 + F::cost_of(d, s5)) as nat;
        let s7 = (s6 + G::cost_of(d, s6)) as nat;
        let s8 = (s7 + H::cost_of(d, s7)) as nat;
        (A::value_of(d, start), B::value_of(d, s1), C::value_of(d, s2), D::value_of(d, s3), E::value_of(d, s4), F::value_of(d, s5), G::value_of(d, s6), H::value_of(d, s7), I::value_of(d, s8))
    }

    open spec fn cost_of(d: spec_fn(nat) -> u64, start: nat) -> nat {
        let s1 = (start + A::cost_of(d, start)) as nat;
        let s2 = (s1 + B::cost_of(d, s1)) as nat;
        let s3 = (s2 + C::cost_of(d, s2)) as nat;
        let s4 = (s3 + D::cost_of(d, s3)) as nat;
        let s5 = (s4 + E::cost_of(d, s4)) as nat;
        let s6 = (s5 + F::cost_of(d, s5)) as nat;
        let s7 = (s6 + G::cost_of(d, s6)) as nat;
        let s8 = (s7 + H::cost_of(d, s7)) as nat;
        ((s8 + I::cost_of(d, s8)) - start) as nat
    }

    open spec fn can_generate(d: spec_fn(nat) -> u64, start: nat) -> bool {
        let s1 = (start + A::cost_of(d, start)) as nat;
        let s2 = (s1 + B::cost_of(d, s1)) as nat;
        let s3 = (s2 + C::cost_of(d, s2)) as nat;
        let s4 = (s3 + D::cost_of(d, s3)) as nat;
        let s5 = (s4 + E::cost_of(d, s4)) as nat;
        let s6 = (s5 + F::cost_of(d, s5)) as nat;
        let s7 = (s6 + G::cost_of(d, s6)) as nat;
        let s8 = (s7 + H::cost_of(d, s7)) as nat;
        A::can_generate(d, start) && B::can_generate(d, s1) && C::can_generate(d, s2) && D::can_generate(d, s3) && E::can_generate(d, s4) && F::can_generate(d, s5) && G::can_generate(d, s6) && H::can_generate(d, s7) && I::can_generate(d, s8)
    }

    fn rand<R: EntropySource>(rng: &mut R) -> (r: (A, B, C, D, E, F, G, H, I)) {
        let v0 = A::rand(rng);
        let v1 = B::rand(rng);
        let v2 = C::rand(rng);
        let v3 = D::rand(rng);
        let v4 = E::rand(rng);
        let v5 = F::rand(rng);
        let v6 = G::rand(rng);
        let v7 = H::rand(rng);
        let v8 = I::rand(rng);
        (v0, v1, v2, v3, v4, v5, v6, v7, v8)
    }
}

impl<A: Rand, B: Rand, C: Rand, D: Rand, E: Rand, F: Rand, G: Rand, H: Rand, I: Rand, J: Rand> Rand for (A, B, C, D, E, F, G, H, I, J) {
    open spec fn value_of(d: spec_fn(nat) -> u64, start: nat) -> (A, B, C, D, E, F, G, H, I, J) {
        let s1 = (start + A::cost_of(d, start)) as nat;
        let s2 = (s1 + B::cost_of(d, s1)) as nat;
        let s3 = (s2 + C::cost_of(d, s2)) as nat;
        let s4 = (s3 + D::cost_of(d, s3)) as nat;
        let s5 = (s4 + E::cost_of(d, s4)) as nat;
        let s6 = (s5 + F::cost_of(d, s5)) as nat;
        let s7 = (s6 + G::cost_of(d, s6)) as nat;
        let s8 = (s7 + H::cost_of(d, s7)) as nat;
        let s9 = (s8 + I::cost_of(d, s8)) as nat;
        (A::value_of(d, start), B::value_of(d, s1), C::value_of(d, s2), D::value_of(d, s3), E::value_of(d, s4), F::value_of(d, s5), G::value_of(d, s6), H::value_of(d, s7), I::value_of(d, s8), J::value_of(d, s9))
    }

    open spec fn cost_of(d: spec_fn(nat) -> u64, start: nat) -> nat {
        let s1 = (start + A::cost_of(d, start)) as nat;
        let s2 = (s1 + B::cost_of(d, s1)) as nat;
        let s3 = (s2 + C::cost_of(d, s2)) as nat;
        let s4 = (s3 + D::cost_of(d, s3)) as nat;
        let s5 = (s4 + E::cost_of(d, s4)) as nat;
        let s6 = (s5 + F::cost_of(d, s5)) as nat;
        let s7 = (s6 + G::cost_of(d, s6)) as nat;
        let s8 = (s7 + H::cost_of(d, s7)) as nat;
        let s9 = (s8 + I::cost_of(d, s8)) as nat;
        ((s9 + J::cost_of(d, s9)) - start) as nat
    }

    open spec fn can_generate(d: spec_fn(nat) -> u64, start: nat) -> bool {
        let s1 = (start + A::cost_of(d, start)) as nat;
        let s2 = (s1 + B::cost_of(d, s1)) as nat;
        let s3 = (s2 + C::cost_of(d, s2)) as nat;
        let s4 = (s3 + D::cost_of(d, s3)) as nat;
        let s5 = (s4 + E::cost_of(d, s4)) as nat;
        let s6 = (s5 + F::cost_of(d, s5)) as nat;
        let s7 = (s6 + G::cost_of(d, s6)) as nat;
        let s8 = (s7 + H::cost_of(d, s7)) as nat;
        let s9 = (s8 + I::cost_of(d, s8)) as nat;
        A::can_generate(d, start) && B::can_generate(d, s1) && C::can_generate(d, s2) && D::can_generate(d, s3) && E::can_generate(d, s4) && F::can_generate(d, s5) && G::can_generate(d, s6) && H::can_generate(d, s7) && I::can_generate(d, s8) && J::can_generate(d, s9)
    }

    fn rand<R: EntropySource>(rng: &mut R) -> (r: (A, B, C, D, E, F, G, H, I, J)) {
        let v0 = A::rand(rng);
        let v1 = B::rand(rng);
        let v2 = C::rand(rng);
        let v3 = D::rand(rng);
        let v4 = E::rand(rng);
        let v5 = F::rand(rng);
        let v6 = G::rand(rng);
        let v7 = H::rand(rng);
        let v8 = I::rand(rng);
        let v9 = J::rand(rng);
        (v0, v1, v2, v3, v4, v5, v6, v7, v8, v9)
    }
}

impl<A: Rand, B: Rand, C: Rand, D: Rand, E: Rand, F: Rand, G: Rand, H: Rand, I: Rand, J: Rand, K: Rand> Rand for (A, B, C, D, E, F, G, H, I, J, K) {
    open spec fn value_of(d: spec_fn(nat) -> u64, start: nat) -> (A, B, C, D, E, F, G, H, I, J, K) {
        let s1 = (start + A::cost_of(d, start)) as nat;
        let s2 = (s1 + B::cost_of(d, s1)) as nat;
        let s3 = (s2 + C::cost_of(d, s2)) as nat;
        let s4 = (s3 + D::cost_of(d, s3)) as nat;
        let s5 = (s4 + E::cost_of(d, s4)) as nat;
        let s6 = (s5 + F::cost_of(d, s5)) as nat;
        let s7 = (s6 + G::cost_of(d, s6)) as nat;
        let s8 = (s7 + H::cost_of(d, s7)) as nat;
        let s9 = (s8 + I::cost_of(d, s8)) as nat;
        let s10 = (s9 + J::cost_of(d, s9)) as nat;
        (A::value_of(d, start), B::value_of(d, s1), C::value_of(d, s2), D::value_of(d, s3), E::value_of(d, s4), F::value_of(d, s5), G::value_of(d, s6), H::value_of(d, s7), I::value_of(d, s8), J::value_of(d, s9), K::value_of(d, s10))
    }

    open spec fn cost_of(d: spec_fn(nat) -> u64, start: nat) -> nat {
        let s1 = (start + A::cost_of(d, start)) as nat;
        let s2 = (s1 + B::cost_of(d, s1)) as nat;
        let s3 = (s2 + C::cost_of(d, s2)) as nat;
        let s4 = (s3 + D::cost_of(d, s3)) as nat;
        let s5 = (s4 + E::cost_of(d, s4)) as nat;
        let s6 = (s5 + F::cost_of(d, s5)) as nat;
        let s7 = (s6 + G::cost_of(d, s6)) as nat;
        let s8 = (s7 + H::cost_of(d, s7)) as nat;
        let s9 = (s8 + I::cost_of(d, s8)) as nat;
        let s10 = (s9 + J::cost_of(d, s9)) as nat;
        ((s10 + K::cost_of(d, s10)) - start) as nat
    }

    open spec fn can_generate(d: spec_fn(nat) -> u64, start: nat) -> bool {
        let s1 = (start + A::cost_of(d, start)) as nat;
        let s2 = (s1 + B::cost_of(d, s1)) as nat;
        let s3 = (s2 + C::cost_of(d, s2)) as nat;
        let s4 = (s3 + D::cost_of(d, s3)) as nat;
        let s5 = (s4 + E::cost_of(d, s4)) as nat;
        let s6 = (s5 + F::cost_of(d, s5)) as nat;
        let s7 = (s6 + G::cost_of(d, s6)) as nat;
        let s8 = (s7 + H::cost_of(d, s7)) as nat;
        let s9 = (s8 + I::cost_of(d, s8)) as nat;
        let s10 = (s9 + J::cost_of(d, s9)) as nat;
        A::can_generate(d, start) && B::can_generate(d, s1) && C::can_generate(d, s2) && D::can_generate(d, s3) && E::can_generate(d, s4) && F::can_generate(d, s5) && G::can_generate(d, s6) && H::can_generate(d, s7) && I::can_generate(d, s8) && J::can_generate(d, s9) && K::can_generate(d, s10)
    }

    fn rand<R: EntropySource>(rng: &mut R) -> (r: (A, B, C, D, E, F, G, H, I, J, K)) {
        let v0 = A::rand(rng);
        let v1 = B::rand(rng);
        let v2 = C::rand(rng);
        let v3 = D::rand(rng);
        let v4 = E::rand(rng);
        let v5 = F::rand(rng);
        let v6 = G::rand(rng);
        let v7 = H::rand(rng);
        let v8 = I::rand(rng);
        let v9 = J::rand(rng);
        let v10 = K::rand(rng);
        (v0, v1, v2, v3, v4, v5, v6, v7, v8, v9, v10)
    }
}

impl<A: Rand, B: Rand, C: Rand, D: Rand, E: Rand, F: Rand, G: Rand, H: Rand, I: Rand, J: Rand, K: Rand, L: Rand> Rand for (A, B, C, D, E, F, G, H, I, J, K, L) {
    open spec fn value_of(d: spec_fn(nat) -> u64, start: nat) -> (A, B, C, D, E, F, G, H, I, J, K, L) {
        let s1 = (start + A::cost_of(d, start)) as nat;
        let s2 = (s1 + B::cost_of(d, s1)) as nat;
        let s3 = (s2 + C::cost_of(d, s2)) as nat;
        let s4 = (s3 + D::cost_of(d, s3)) as nat;
        let s5 = (s4 + E::cost_of(d, s4)) as nat;
        let s6 = (s5 + F::cost_of(d, s5)) as nat;
        let s7 = (s6 + G::cost_of(d, s6)) as nat;
        let s8 = (s7 + H::cost_of(d, s7)) as nat;
        let s9 = (s8 + I::cost_of(d, s8)) as nat;
        let s10 = (s9 + J::cost_of(d, s9)) as nat;
        let s11 = (s10 + K::cost_of(d, s10)) as nat;
        (A::value_of(d, start), B::value_of(d, s1), C::value_of(d, s2), D::value_of(d, s3), E::value_of(d, s4), F::value_of(d, s5), G::value_of(d, s6), H::value_of(d, s7), I::value_of(d, s8), J::value_of(d, s9), K::value_of(d, s10), L::value_of(d, s11))
    }

    open spec fn cost_of(d: spec_fn(nat) -> u64, start: nat) -> nat {
        let s1 = (start + A::cost_of(d, start)) as nat;
        let s2 = (s1 + B::cost_of(d, s1)) as nat;
        let s3 = (s2 + C::cost_of(d, s2)) as nat;
        let s4 = (s3 + D::cost_of(d, s3)) as nat;
        let s5 = (s4 + E::cost_of(d, s4)) as nat;
        let s6 = (s5 + F::cost_of(d, s5)) as nat;
        let s7 = (s6 + G::cost_of(d, s6)) as nat;
        let s8 = (s7 + H::cost_of(d, s7)) as nat;
        let s9 = (s8 + I::cost_of(d, s8)) as nat;
        let s10 = (s9 + J::cost_of(d, s9)) as nat;
        let s11 = (s10 + K::cost_of(d, s10)) as nat;
        ((s11 + L::cost_of(d, s11)) - start) as nat
    }

    open spec fn can_generate(d: spec_fn(nat) -> u64, start: nat) -> bool {
        let s1 = (start + A::cost_of(d, start)) as nat;
        let s2 = (s1 + B::cost_of(d, s1)) as nat;
        let s3 = (s2 + C::cost_of(d, s2)) as nat;
        let s4 = (s3 + D::cost_of(d, s3)) as nat;
        let s5 = (s4 + E::cost_of(d, s4)) as nat;
        let s6 = (s5 + F::cost_of(d, s5)) as nat;
        let s7 = (s6 + G::cost_of(d, s6)) as nat;
        let s8 = (s7 + H::cost_of(d, s7)) as nat;
        let s9 = (s8 + I::cost_of(d, s8)) as nat;
        let s10 = (s9 + J::cost_of(d, s9)) as nat;
        let s11 = (s10 + K::cost_of(d, s10)) as nat;
        A::can_generate(d, start) && B::can_generate(d, s1) && C::can_generate(d, s2) && D::can_generate(d, s3) && E::can_generate(d, s4) && F::can_generate(d, s5) && G::can_generate(d, s6) && H::can_generate(d, s7) && I::can_generate(d, s8) && J::can_generate(d, s9) && K::can_generate(d, s10) && L::can_generate(d, s11)
    }

    fn rand<R: EntropySource>(rng: &mut R) -> (r: (A, B, C, D, E, F, G, H, I, J, K, L)) {
        let v0 = A::rand(rng);
        let v1 = B::rand(rng);
        let v2 = C::rand(rng);
        let v3 = D::rand(rng);
        let v4 = E::rand(rng);
        let v5 = F::rand(rng);
        let v6 = G::rand(rng);
        let v7 = H::rand(rng);
        let v8 = I::rand(rng);
        let v9 = J::rand(rng);
        let v10 = K::rand(rng);
        let v11 = L::rand(rng);
        (v0, v1, v2, v3, v4, v5, v6, v7, v8, v9, v10, v11)
    }
}

/// The sequence of `n` values generated one after the other from `d`
/// starting at `start`, each constituent beginning where the one before
/// it stopped.
pub open spec fn seq_value_of<T: Rand>(d: spec_fn(nat) -> u64, start: nat, n: nat) -> Seq<T>
    decreases n,
{
    if n == 0 {
        Seq::empty()
    } else {
        seq![T::value_of(d, start)] + seq_value_of::<T>(
            d,
            (start + T::cost_of(d, start)) as nat,
            (n - 1) as nat,
        )
    }
}

/// The number of raw draws that generating `n` values one after the other
/// consumes.
pub open spec fn seq_cost_of<T: Rand>(d: spec_fn(nat) -> u64, start: nat, n: nat) -> nat
    decreases n,
{
    if n == 0 {
        0
    } else {
        (T::cost_of(d, start) + seq_cost_of::<T>(
            d,
            (start + T::cost_of(d, start)) as nat,
            (n - 1) as nat,
        )) as nat
    }
}

/// Whether the draw sequence supplies what generating `n` values one
/// after the other needs.
pub open spec fn seq_can_generate<T: Rand>(d: spec_fn(nat) -> u64, start: nat, n: nat) -> bool
    decreases n,
{
    n > 0 ==> T::can_generate(d, start) && seq_can_generate::<T>(
        d,
        (start + T::cost_of(d, start)) as nat,
        (n - 1) as nat,
    )
}

/// Extending a generated sequence by one more value appends the value
/// generated at the position where the first `n` constituents stopped.
pub proof fn lemma_seq_generation_step<T: Rand>(d: spec_fn(nat) -> u64, start: nat, n: nat)
    ensures
        seq_value_of::<T>(d, start, (n + 1) as nat) == seq_value_of::<T>(d, start, n).push(
            T::value_of(d, (start + seq_cost_of::<T>(d, start, n)) as nat),
        ),
        seq_cost_of::<T>(d, start, (n + 1) as nat) == seq_cost_of::<T>(d, start, n)
            + T::cost_of(d, (start + seq_cost_of::<T>(d, start, n)) as nat),
    decreases n,
{
    if n == 0 {
        let next = (start + T::cost_of(d, start)) as nat;
        assert(seq_value_of::<T>(d, next, 0) =~= Seq::empty());
        assert(seq_cost_of::<T>(d, next, 0) == 0);
        assert(seq_value_of::<T>(d, start, 1) =~= seq_value_of::<T>(d, start, 0).push(
            T::value_of(d, start),
        ));
    } else {
        let next = (start + T::cost_of(d, start)) as nat;
        lemma_seq_generation_step::<T>(d, next, (n - 1) as nat);
        assert(seq_value_of::<T>(d, start, (n + 1) as nat) =~= seq_value_of::<T>(
            d,
            start,
            n,
        ).push(T::value_of(d, (start + seq_cost_of::<T>(d, start, n)) as nat)));
    }
}

/// A draw sequence that supplies `n` values supplies each constituent at
/// the position where the ones before it stopped.
pub proof fn lemma_seq_can_generate_at<T: Rand>(d: spec_fn(nat) -> u64, start: nat, n: nat, i: nat)
    requires
        seq_can_generate::<T>(d, start, n),
        i < n,
    ensures
        T::can_generate(d, (start + seq_cost_of::<T>(d, start, i)) as nat),
    decreases i,
{
    if i > 0 {
        let next = (start + T::cost_of(d, start)) as nat;
        lemma_seq_can_generate_at::<T>(d, next, (n - 1) as nat, (i - 1) as nat);
    }
}

/// Generate a fixed-size sequence of `n` values, each slot in index
/// order.  A zero-length sequence consumes no draws.
pub fn rand_seq<T: Rand, R: EntropySource>(rng: &mut R, n: usize) -> (v: Vec<T>)
    requires
        seq_can_generate::<T>(old(rng).draws(), old(rng).consumed(), n as nat),
    ensures
        final(rng).draws() == old(rng).draws(),
        final(rng).consumed() == old(rng).consumed() + seq_cost_of::<T>(
            old(rng).draws(),
            old(rng).consumed(),
            n as nat,
        ),
        v@ == seq_value_of::<T>(old(rng).draws(), old(rng).consumed(), n as nat),
{
    let mut v: Vec<T> = Vec::new();
    let mut i: usize = 0;
    while i < n
        invariant
            i <= n,
            seq_can_generate::<T>(old(rng).draws(), old(rng).consumed(), n as nat),
            rng.draws() == old(rng).draws(),
            rng.consumed() == old(rng).consumed() + seq_cost_of::<T>(
                old(rng).draws(),
                old(rng).consumed(),
                i as nat,
            ),
            v@ == seq_value_of::<T>(old(rng).draws(), old(rng).consumed(), i as nat),
        decreases n - i,
    {
        proof {
            lemma_seq_generation_step::<T>(old(rng).draws(), old(rng).consumed(), i as nat);
            lemma_seq_can_generate_at::<T>(
                old(rng).draws(),
                old(rng).consumed(),
                n as nat,
                i as nat,
            );
        }
        let t = T::rand(rng);
        v.push(t);
        i = i + 1;
    }
    v
}

} // verus!
