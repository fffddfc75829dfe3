//! Integer truncation, rejection sampling, compound composition, draw
//! accounting, and the seeded bootstrap path, on concrete draw lists.

use randmap::compose::rand_seq;
use randmap::seeded::from_seedable;
use randmap::sources::ConstantSource;
use randmap::sources::ReplaySource;
use randmap::Rand;

#[test]
fn integer_truncation_masks_low_bits() {
    let raw: u64 = 0x1234_5678_9ABC_DEF0;
    let mut s = ConstantSource::new(raw);
    assert_eq!(u8::rand(&mut s), 0xF0);
    assert_eq!(u16::rand(&mut s), 0xDEF0);
    assert_eq!(u32::rand(&mut s), 0x9ABC_DEF0);
    assert_eq!(u64::rand(&mut s), raw);

    let mut zeros = ConstantSource::new(0);
    assert_eq!(u8::rand(&mut zeros), 0);
    assert_eq!(u16::rand(&mut zeros), 0);
    assert_eq!(u32::rand(&mut zeros), 0);

    let mut ones = ConstantSource::new(!0);
    assert_eq!(u8::rand(&mut ones), 0xFF);
    assert_eq!(u16::rand(&mut ones), 0xFFFF);
    assert_eq!(u32::rand(&mut ones), 0xFFFF_FFFF);
}

#[test]
fn signed_integers_reinterpret_low_bits() {
    let raw: u64 = 0x1234_5678_9ABC_DEF0;
    let mut s = ConstantSource::new(raw);
    assert_eq!(i8::rand(&mut s), -16);
    assert_eq!(i16::rand(&mut s), -8464);
    assert_eq!(i32::rand(&mut s), -1_698_898_192);
    assert_eq!(i64::rand(&mut s), 0x1234_5678_9ABC_DEF0_i64);

    let mut ones = ConstantSource::new(!0);
    assert_eq!(i8::rand(&mut ones), -1);
    assert_eq!(i16::rand(&mut ones), -1);
    assert_eq!(i32::rand(&mut ones), -1);
    assert_eq!(i64::rand(&mut ones), -1);
}

#[test]
fn wide_integers_concatenate_two_draws() {
    let mut s = ReplaySource::new(vec![1, 2]);
    let x = u128::rand(&mut s);
    assert_eq!(x, (1u128 << 64) | 2);
    assert_eq!(s.position(), 2);

    let mut t = ReplaySource::new(vec![!0u64, 2]);
    let y = i128::rand(&mut t);
    assert_eq!(y, -18_446_744_073_709_551_614_i128);
}

#[test]
fn platform_integers_follow_word_width() {
    let mut s = ConstantSource::new(!0);
    let u = usize::rand(&mut s);
    assert_eq!(u, usize::MAX);
    let i = isize::rand(&mut s);
    assert_eq!(i, -1);

    let raw: u64 = 0x1234_5678_9ABC_DEF0;
    let mut t = ConstantSource::new(raw);
    let u = usize::rand(&mut t);
    if core::mem::size_of::<usize>() == 4 {
        assert_eq!(u as u64, 0x9ABC_DEF0);
    } else {
        assert_eq!(u as u64, raw);
    }
}

#[test]
fn booleans_take_the_low_bit() {
    let mut even = ConstantSource::new(2);
    assert!(!bool::rand(&mut even));
    let mut odd = ConstantSource::new(3);
    assert!(bool::rand(&mut odd));
}

#[test]
fn sampler_masks_and_rejects() {
    // The low 21 bits of the draw decide the code point.
    let mut s = ConstantSource::new(0x0020_0041);
    let c = char::rand(&mut s);
    assert_eq!(c, 'A');

    // A surrogate draw is rejected; the next draw is kept.
    let mut t = ReplaySource::new(vec![0xD800, 0x41]);
    let c = char::rand(&mut t);
    assert_eq!(c, 'A');
    assert_eq!(t.position(), 2);

    // The maximum code point is kept.
    let mut m = ConstantSource::new(0x10_FFFF);
    assert_eq!(char::rand(&mut m), '\u{10FFFF}');
}

#[test]
fn sampler_yields_only_scalar_values() {
    let mut state: u64 = 7;
    for _ in 0..2_000 {
        state = state.wrapping_mul(6_364_136_223_846_793_005).wrapping_add(1);
        let mut s = ConstantSource::new(state);
        // A degenerate constant source only returns when its constant is
        // acceptable; skip the (rare) rejected constants.
        let masked = (state & 0x001F_FFFF) as u32;
        if masked > 0x10_FFFF || (0xD800..=0xDFFF).contains(&masked) {
            continue;
        }
        let c = char::rand(&mut s);
        let code = c as u32;
        assert!(code <= 0x10_FFFF);
        assert!(!(0xD800..=0xDFFF).contains(&code));
        assert_eq!(code, masked);
    }
}

#[test]
fn absent_option_consumes_one_draw() {
    let mut s = ReplaySource::new(vec![2, 99]);
    let o = <Option<u8> as Rand>::rand(&mut s);
    assert_eq!(o, None);
    assert_eq!(s.position(), 1);

    let mut t = ReplaySource::new(vec![3, 99]);
    let o = <Option<u8> as Rand>::rand(&mut t);
    assert_eq!(o, Some(99));
    assert_eq!(t.position(), 2);
}

#[test]
fn empty_sequence_consumes_no_draws() {
    let mut s = ReplaySource::new(vec![1, 2, 3]);
    let v: Vec<u8> = rand_seq(&mut s, 0);
    assert!(v.is_empty());
    assert_eq!(s.position(), 0);
}

#[test]
fn sequences_fill_slots_in_index_order() {
    let mut s = ReplaySource::new(vec![10, 11, 12, 13]);
    let v: Vec<u8> = rand_seq(&mut s, 4);
    assert_eq!(v, vec![10, 11, 12, 13]);
    assert_eq!(s.position(), 4);
}

#[test]
fn tuples_generate_left_to_right() {
    let mut s = ReplaySource::new(vec![1, 2, 3]);
    let t = <(u8, u16, u32) as Rand>::rand(&mut s);
    assert_eq!(t, (1, 2, 3));
    assert_eq!(s.position(), 3);

    let draws: Vec<u64> = (1..=12).collect();
    let mut a = ReplaySource::new(draws.clone());
    let twelve = <(u8, u8, u8, u8, u8, u8, u8, u8, u8, u8, u8, u8) as Rand>::rand(&mut a);
    assert_eq!(twelve, (1, 2, 3, 4, 5, 6, 7, 8, 9, 10, 11, 12));
}

#[test]
fn identical_draws_give_identical_tuples() {
    let draws = vec![0x1234, 0xABCD_EF01, 7, 42];
    let mut a = ReplaySource::new(draws.clone());
    let mut b = ReplaySource::new(draws);
    let ta = <(u8, u16, u32, u64) as Rand>::rand(&mut a);
    let tb = <(u8, u16, u32, u64) as Rand>::rand(&mut b);
    assert_eq!(ta, tb);
}

#[test]
fn nested_compounds_compose() {
    // bool true, then inner pair (u8, u8).
    let mut s = ReplaySource::new(vec![1, 7, 8]);
    let o = <Option<(u8, u8)> as Rand>::rand(&mut s);
    assert_eq!(o, Some((7, 8)));
    assert_eq!(s.position(), 3);

    let mut u = ConstantSource::new(5);
    <() as Rand>::rand(&mut u);
}

#[test]
fn seeded_types_bootstrap_from_a_source() {
    let mut s = ReplaySource::new(vec![7, 0]);
    let seeded: ConstantSource = from_seedable(&mut s);
    assert_eq!(s.position(), 1);
    let mut seeded = seeded;
    assert_eq!(u64::rand(&mut seeded), 7);
    assert_eq!(u8::rand(&mut seeded), 7);
}

#[test]
fn byte_filling_packs_draws_little_endian() {
    let mut s = ReplaySource::new(vec![0x0807_0605_0403_0201, 0xFFEE_DDCC_BBAA_9988]);
    let mut buf = vec![0u8; 10];
    randmap::entropy::fill_bytes(&mut s, &mut buf);
    assert_eq!(buf, vec![1, 2, 3, 4, 5, 6, 7, 8, 0x88, 0x99]);
    assert_eq!(s.position(), 2);

    let mut empty: Vec<u8> = Vec::new();
    let mut t = ReplaySource::new(vec![5]);
    randmap::entropy::fill_bytes(&mut t, &mut empty);
    assert!(empty.is_empty());
    assert_eq!(t.position(), 0);
}

#[test]
fn replay_source_pads_with_zero() {
    let mut s = ReplaySource::new(vec![9]);
    assert_eq!(u64::rand(&mut s), 9);
    assert_eq!(u64::rand(&mut s), 0);
    assert_eq!(s.position(), 1);
}
