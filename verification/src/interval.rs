//! Floating draws in the unit interval, held as exact fractions.
//!
//! The entropy source's floating draw with `m` mantissa bits is the
//! fraction `k / 2^m`, where `k` keeps the low `m` bits of one raw draw:
//! single precision takes 23 bits of a 32-bit draw, double precision 52
//! bits of a 64-bit draw.  The three interval mappings are exact rational
//! arithmetic on that fraction:
//!
//! - half-open `[0,1)`: the draw unmodified, `k / 2^m`;
//! - open `(0,1)`: the draw plus a quarter of the type's epsilon,
//!   `(4k + 1) / 2^(m+2)`, which can be neither 0 nor 1;
//! - closed `[0,1]`: the draw rescaled by `2^m / (2^m - 1)`, giving
//!   `k / (2^m - 1)`, which maps the largest draw to exactly 1.
//!
//! Dividing the numerator by the denominator in floating arithmetic
//! yields the same floating value the corresponding float operations
//! produce, since each rounds the exact ratio once; that division is left
//! to unverified callers, floating arithmetic being outside this crate.

use vstd::prelude::*;
use crate::entropy::EntropySource;

verus! {

/// The number of mantissa bits of a single-precision floating value.
pub const SINGLE_MANTISSA_BITS: u32 = 23;

/// The number of mantissa bits of a double-precision floating value.
pub const DOUBLE_MANTISSA_BITS: u32 = 52;

/// `2^m` for the two supported mantissa widths: the denominator of a
/// half-open draw, and the `SCALE` of the interval adjustments.
pub open spec fn scale_of(m: u32) -> u64 {
    if m == 23 {
        0x80_0000
    } else {
        0x10_0000_0000_0000
    }
}

/// The two supported widths.
pub open spec fn valid_mantissa_bits(m: u32) -> bool {
    m == 23 || m == 52
}

/// A floating draw in the half-open interval `[0,1)`: the fraction
/// `numerator / 2^mantissa_bits`, strictly below one.
pub struct HalfOpen01 {
    /// The numerator `k`; the value is `k / 2^mantissa_bits`.
    pub numerator: u64,
    /// 23 for single precision, 52 for double precision.
    pub mantissa_bits: u32,
}

/// A floating value in the open interval `(0,1)`: the fraction
/// `numerator / 2^(mantissa_bits + 2)`, strictly between zero and one.
pub struct Open01 {
    /// The numerator `4k + 1`; the value is `(4k + 1) / 2^(mantissa_bits + 2)`.
    pub numerator: u64,
    /// 23 for single precision, 52 for double precision.
    pub mantissa_bits: u32,
}

/// A floating value in the closed interval `[0,1]`: the fraction
/// `numerator / (2^mantissa_bits - 1)`, reaching both endpoints.
pub struct Closed01 {
    /// The numerator `k`; the value is `k / (2^mantissa_bits - 1)`.
    pub numerator: u64,
    /// 23 for single precision, 52 for double precision.
    pub mantissa_bits: u32,
}

impl HalfOpen01 {
    /// The invariant of a half-open draw: the value lies in `[0,1)`.
    pub open spec fn wf(&self) -> bool {
        valid_mantissa_bits(self.mantissa_bits) && self.numerator < scale_of(self.mantissa_bits)
    }

    /// The denominator `2^mantissa_bits`.
    pub fn denominator(&self) -> (r: u64)
        requires
            self.wf(),
        ensures
            r == scale_of(self.mantissa_bits),
    {
        if self.mantissa_bits == 23 {
            0x80_0000
        } else {
            0x10_0000_0000_0000
        }
    }
}

impl Open01 {
    /// The invariant of an open-interval value: the fraction lies
    /// strictly between zero and one.
    pub open spec fn wf(&self) -> bool {
        valid_mantissa_bits(self.mantissa_bits) && 0 < self.numerator < 4 * scale_of(
            self.mantissa_bits,
        )
    }

    /// The denominator `2^(mantissa_bits + 2)`.
    pub fn denominator(&self) -> (r: u64)
        requires
            self.wf(),
        ensures
            r == 4 * scale_of(self.mantissa_bits),
    {
        if self.mantissa_bits == 23 {
            0x200_0000
        } else {
            0x40_0000_0000_0000
        }
    }
}

impl Closed01 {
    /// The invariant of a closed-interval value: the fraction lies in
    /// `[0,1]`.
    pub open spec fn wf(&self) -> bool {
        valid_mantissa_bits(self.mantissa_bits) && self.numerator <= scale_of(self.mantissa_bits)
            - 1
    }

    /// The denominator `2^mantissa_bits - 1`.
    pub fn denominator(&self) -> (r: u64)
        requires
            self.wf(),
        ensures
            r == scale_of(self.mantissa_bits) - 1,
    {
        if self.mantissa_bits == 23 {
            0x7F_FFFF
        } else {
            0xF_FFFF_FFFF_FFFF
        }
    }
}

/// Draw a single-precision value in `[0,1)`: the low 23 bits of one
/// 32-bit draw over `2^23`.
pub fn draw_f32_half_open<R: EntropySource>(rng: &mut R) -> (h: HalfOpen01)
    ensures
        final(rng).draws() == old(rng).draws(),
        final(rng).consumed() == old(rng).consumed() + 1,
        h.mantissa_bits == SINGLE_MANTISSA_BITS,
        h.numerator == (old(rng).draws())(old(rng).consumed()) % 0x80_0000,
        h.wf(),
{
    let w = rng.next_u32();
    proof {
        let x = (old(rng).draws())(old(rng).consumed());
        assert((((x % 0x1_0000_0000) as u32) & 0x007F_FFFF) as u64 == x % 0x80_0000)
            by (bit_vector);
    }
    HalfOpen01 { numerator: (w & 0x007F_FFFF) as u64, mantissa_bits: 23 }
}

/// Draw a double-precision value in `[0,1)`: the low 52 bits of one
/// 64-bit draw over `2^52`.
pub fn draw_f64_half_open<R: EntropySource>(rng: &mut R) -> (h: HalfOpen01)
    ensures
        final(rng).draws() == old(rng).draws(),
        final(rng).consumed() == old(rng).consumed() + 1,
        h.mantissa_bits == DOUBLE_MANTISSA_BITS,
        h.numerator == (old(rng).draws())(old(rng).consumed()) % 0x10_0000_0000_0000,
        h.wf(),
{
    let w = rng.next_u64();
    proof {
        let x = (old(rng).draws())(old(rng).consumed());
        assert(x & 0xF_FFFF_FFFF_FFFF == x % 0x10_0000_0000_0000) by (bit_vector);
    }
    HalfOpen01 { numerator: w & 0xF_FFFF_FFFF_FFFF, mantissa_bits: 52 }
}

/// Map a half-open draw to the open interval `(0,1)` by adding a quarter
/// of the type's epsilon: `k / 2^m` becomes `(4k + 1) / 2^(m+2)`.
///
/// A draw of exactly zero becomes `1 / 2^(m+2)`, a quarter epsilon, so
/// small draws rise strictly above zero; the largest draw becomes
/// `(2^(m+2) - 3) / 2^(m+2)`, still strictly below one.
pub fn open01(h: &HalfOpen01) -> (o: Open01)
    requires
        h.wf(),
    ensures
        o.mantissa_bits == h.mantissa_bits,
        o.numerator == 4 * h.numerator + 1,
        o.wf(),
{
    Open01 { numerator: 4 * h.numerator + 1, mantissa_bits: h.mantissa_bits }
}

/// Map a half-open draw to the closed interval `[0,1]` by rescaling with
/// `SCALE / (SCALE - 1)`: `k / 2^m` becomes `k / (2^m - 1)`.
///
/// A draw of exactly zero stays zero; the largest draw, `1 - epsilon`,
/// becomes exactly one, its numerator equalling the new denominator.
pub fn closed01(h: &HalfOpen01) -> (c: Closed01)
    requires
        h.wf(),
    ensures
        c.mantissa_bits == h.mantissa_bits,
        c.numerator == h.numerator,
        c.wf(),
        c.numerator == scale_of(c.mantissa_bits) - 1 <==> h.numerator == scale_of(
            h.mantissa_bits,
        ) - 1,
        c.numerator == 0 <==> h.numerator == 0,
{
    Closed01 { numerator: h.numerator, mantissa_bits: h.mantissa_bits }
}

/// Draw a single-precision value in the open interval `(0,1)`.
pub fn draw_f32_open<R: EntropySource>(rng: &mut R) -> (o: Open01)
    ensures
        final(rng).draws() == old(rng).draws(),
        final(rng).consumed() == old(rng).consumed() + 1,
        o.mantissa_bits == SINGLE_MANTISSA_BITS,
        o.numerator == 4 * ((old(rng).draws())(old(rng).consumed()) % 0x80_0000) + 1,
        o.wf(),
{
    let h = draw_f32_half_open(rng);
    open01(&h)
}

/// Draw a double-precision value in the open interval `(0,1)`.
pub fn draw_f64_open<R: EntropySource>(rng: &mut R) -> (o: Open01)
    ensures
        final(rng).draws() == old(rng).draws(),
        final(rng).consumed() == old(rng).consumed() + 1,
        o.mantissa_bits == DOUBLE_MANTISSA_BITS,
        o.numerator == 4 * ((old(rng).draws())(old(rng).consumed()) % 0x10_0000_0000_0000) + 1,
        o.wf(),
{
    let h = draw_f64_half_open(rng);
    open01(&h)
}

/// Draw a single-precision value in the closed interval `[0,1]`.
pub fn draw_f32_closed<R: EntropySource>(rng: &mut R) -> (c: Closed01)
    ensures
        final(rng).draws() == old(rng).draws(),
        final(rng).consumed() == old(rng).consumed() + 1,
        c.mantissa_bits == SINGLE_MANTISSA_BITS,
        c.numerator == (old(rng).draws())(old(rng).consumed()) % 0x80_0000,
        c.wf(),
{
    let h = draw_f32_half_open(rng);
    closed01(&h)
}

/// Draw a double-precision value in the closed interval `[0,1]`.
pub fn draw_f64_closed<R: EntropySource>(rng: &mut R) -> (c: Closed01)
    ensures
        final(rng).draws() == old(rng).draws(),
        final(rng).consumed() == old(rng).consumed() + 1,
        c.mantissa_bits == DOUBLE_MANTISSA_BITS,
        c.numerator == (old(rng).draws())(old(rng).consumed()) % 0x10_0000_0000_0000,
        c.wf(),
{
    let h = draw_f64_half_open(rng);
    closed01(&h)
}

} // verus!
