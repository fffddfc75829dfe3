//! Generation of integers of every width.
//!
//! Widths up to 32 bits truncate the low bits of one 32-bit draw; 64-bit
//! values take one full draw; 128-bit values concatenate two draws, the
//! first into the high half.  Signed widths reinterpret the truncated bits
//! in two's complement.  Truncating a uniform draw keeps the result uniform
//! over the smaller range.

use vstd::prelude::*;
use crate::entropy::EntropySource;
use crate::value::Rand;

verus! {

/// The low 8 bits of a raw draw.
pub open spec fn low8(x: u64) -> u8 {
    (x % 0x100) as u8
}

/// The low 16 bits of a raw draw.
pub open spec fn low16(x: u64) -> u16 {
    (x % 0x1_0000) as u16
}

/// The low 8 bits of a raw draw, read in two's complement.
pub open spec fn low8_signed(x: u64) -> i8 {
    if x % 0x100 < 0x80 {
        (x % 0x100) as i8
    } else {
        ((x % 0x100) - 0x100) as i8
    }
}

/// The low 16 bits of a raw draw, read in two's complement.
pub open spec fn low16_signed(x: u64) -> i16 {
    if x % 0x1_0000 < 0x8000 {
        (x % 0x1_0000) as i16
    } else {
        ((x % 0x1_0000) - 0x1_0000) as i16
    }
}

/// The low 32 bits of a raw draw, read in two's complement.
pub open spec fn low32_signed(x: u64) -> i32 {
    if x % 0x1_0000_0000 < 0x8000_0000 {
        (x % 0x1_0000_0000) as i32
    } else {
        ((x % 0x1_0000_0000) - 0x1_0000_0000) as i32
    }
}

/// A full raw draw, read in two's complement.
pub open spec fn full64_signed(x: u64) -> i64 {
    if x < 0x8000_0000_0000_0000 {
        x as i64
    } else {
        (x - 0x1_0000_0000_0000_0000) as i64
    }
}

/// A pair of raw draws concatenated, first into the high half, read in
/// two's complement.
pub open spec fn concat128_signed(hi: u64, lo: u64) -> i128 {
    ((full64_signed(hi) as i128) * 0x1_0000_0000_0000_0000 + lo as i128) as i128
}

/// The value a platform-width unsigned integer takes: the 32-bit
/// truncation where the platform word has 32 bits, the full draw where it
/// has 64.
pub open spec fn platform_unsigned(x: u64) -> usize {
    if usize::BITS == 32 {
        crate::entropy::low32(x) as usize
    } else {
        x as usize
    }
}

/// The value a platform-width signed integer takes.
pub open spec fn platform_signed(x: u64) -> isize {
    if usize::BITS == 32 {
        low32_signed(x) as isize
    } else {
        full64_signed(x) as isize
    }
}

impl Rand for u8 {
    open spec fn value_of(d: spec_fn(nat) -> u64, start: nat) -> u8 {
        low8(d(start))
    }

    open spec fn cost_of(d: spec_fn(nat) -> u64, start: nat) -> nat {
        1
    }

    fn rand<R: EntropySource>(rng: &mut R) -> (r: u8) {
        let w = rng.next_u32();
        proof {
            let x = (old(rng).draws())(old(rng).consumed());
            assert(((x % 0x1_0000_0000) as u32) as u8 == (x % 0x100) as u8) by (bit_vector);
        }
        #[verifier::truncate] (w as u8)
    }
}

impl Rand for u16 {
    open spec fn value_of(d: spec_fn(nat) -> u64, start: nat) -> u16 {
        low16(d(start))
    }

    open spec fn cost_of(d: spec_fn(nat) -> u64, start: nat) -> nat {
        1
    }

    fn rand<R: EntropySource>(rng: &mut R) -> (r: u16) {
        let w = rng.next_u32();
        proof {
            let x = (old(rng).draws())(old(rng).consumed());
            assert(((x % 0x1_0000_0000) as u32) as u16 == (x % 0x1_0000) as u16) by (bit_vector);
        }
        #[verifier::truncate] (w as u16)
    }
}

impl Rand for u32 {
    open spec fn value_of(d: spec_fn(nat) -> u64, start: nat) -> u32 {
        crate::entropy::low32(d(start))
    }

    open spec fn cost_of(d: spec_fn(nat) -> u64, start: nat) -> nat {
        1
    }

    fn rand<R: EntropySource>(rng: &mut R) -> (r: u32) {
        rng.next_u32()
    }
}

impl Rand for u64 {
    open spec fn value_of(d: spec_fn(nat) -> u64, start: nat) -> u64 {
        d(start)
    }

    open spec fn cost_of(d: spec_fn(nat) -> u64, start: nat) -> nat {
        1
    }

    fn rand<R: EntropySource>(rng: &mut R) -> (r: u64) {
        rng.next_u64()
    }
}

impl Rand for u128 {
    /// The first draw fills the high 64 bits, the second the low 64 bits.
    open spec fn value_of(d: spec_fn(nat) -> u64, start: nat) -> u128 {
        ((d(start) as u128) * 0x1_0000_0000_0000_0000 + d((start + 1) as nat) as u128) as u128
    }

    open spec fn cost_of(d: spec_fn(nat) -> u64, start: nat) -> nat {
        2
    }

    fn rand<R: EntropySource>(rng: &mut R) -> (r: u128) {
        let hi = rng.next_u64();
        let lo = rng.next_u64();
        proof {
            assert((hi as u128) << 64 == (hi as u128) * 0x1_0000_0000_0000_0000
                && ((hi as u128) << 64 | lo as u128) == (hi as u128) * 0x1_0000_0000_0000_0000
                + lo as u128) by (bit_vector);
        }
        ((hi as u128) << 64) | (lo as u128)
    }
}

impl Rand for i8 {
    open spec fn value_of(d: spec_fn(nat) -> u64, start: nat) -> i8 {
        low8_signed(d(start))
    }

    open spec fn cost_of(d: spec_fn(nat) -> u64, start: nat) -> nat {
        1
    }

    fn rand<R: EntropySource>(rng: &mut R) -> (r: i8) {
        let b = u8::rand(rng);
        if b < 0x80 {
            b as i8
        } else {
            ((b as i16) - 0x100) as i8
        }
    }
}

impl Rand for i16 {
    open spec fn value_of(d: spec_fn(nat) -> u64, start: nat) -> i16 {
        low16_signed(d(start))
    }

    open spec fn cost_of(d: spec_fn(nat) -> u64, start: nat) -> nat {
        1
    }

    fn rand<R: EntropySource>(rng: &mut R) -> (r: i16) {
        let b = u16::rand(rng);
        if b < 0x8000 {
            b as i16
        } else {
            ((b as i32) - 0x1_0000) as i16
        }
    }
}

impl Rand for i32 {
    open spec fn value_of(d: spec_fn(nat) -> u64, start: nat) -> i32 {
        low32_signed(d(start))
    }

    open spec fn cost_of(d: spec_fn(nat) -> u64, start: nat) -> nat {
        1
    }

    fn rand<R: EntropySource>(rng: &mut R) -> (r: i32) {
        let b = u32::rand(rng);
        if b < 0x8000_0000 {
            b as i32
        } else {
            ((b as i64) - 0x1_0000_0000) as i32
        }
    }
}

impl Rand for i64 {
    open spec fn value_of(d: spec_fn(nat) -> u64, start: nat) -> i64 {
        full64_signed(d(start))
    }

    open spec fn cost_of(d: spec_fn(nat) -> u64, start: nat) -> nat {
        1
    }

    fn rand<R: EntropySource>(rng: &mut R) -> (r: i64) {
        let b = u64::rand(rng);
        if b < 0x8000_0000_0000_0000 {
            b as i64
        } else {
            ((b - 0x8000_0000_0000_0000) as i64) + i64::MIN
        }
    }
}

impl Rand for i128 {
    /// The first draw fills the high 64 bits, the second the low 64 bits.
    open spec fn value_of(d: spec_fn(nat) -> u64, start: nat) -> i128 {
        concat128_signed(d(start), d((start + 1) as nat))
    }

    open spec fn cost_of(d: spec_fn(nat) -> u64, start: nat) -> nat {
        2
    }

    fn rand<R: EntropySource>(rng: &mut R) -> (r: i128) {
        let hi = i64::rand(rng);
        let lo = rng.next_u64();
        (hi as i128) * 0x1_0000_0000_0000_0000 + (lo as i128)
    }
}

impl Rand for usize {
    /// Resolved at the platform word's width: 32-bit platforms take the
    /// 32-bit path, 64-bit platforms the 64-bit path.
    open spec fn value_of(d: spec_fn(nat) -> u64, start: nat) -> usize {
        platform_unsigned(d(start))
    }

    open spec fn cost_of(d: spec_fn(nat) -> u64, start: nat) -> nat {
        1
    }

    fn rand<R: EntropySource>(rng: &mut R) -> (r: usize) {
        proof {
            broadcast use vstd::layout::layout_of_primitives;
        }
        if core::mem::size_of::<usize>() == 4 {
            let w = u32::rand(rng);
            w as usize
        } else {
            let w = u64::rand(rng);
            w as usize
        }
    }
}

impl Rand for isize {
    /// Resolved at the platform word's width, as for `usize`.
    open spec fn value_of(d: spec_fn(nat) -> u64, start: nat) -> isize {
        platform_signed(d(start))
    }

    open spec fn cost_of(d: spec_fn(nat) -> u64, start: nat) -> nat {
        1
    }

    fn rand<R: EntropySource>(rng: &mut R) -> (r: isize) {
        proof {
            broadcast use vstd::layout::layout_of_primitives;
        }
        if core::mem::size_of::<usize>() == 4 {
            let w = i32::rand(rng);
            w as isize
        } else {
            let w = i64::rand(rng);
            w as isize
        }
    }
}

} // verus!
