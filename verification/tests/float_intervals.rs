//! The three float-interval mappings at their rounding boundaries and
//! over many varied draws.

use randmap::interval::draw_f32_closed;
use randmap::interval::draw_f32_half_open;
use randmap::interval::draw_f32_open;
use randmap::interval::draw_f64_closed;
use randmap::interval::draw_f64_half_open;
use randmap::interval::draw_f64_open;
use randmap::sources::ConstantSource;
use randmap::sources::ReplaySource;

const EPSILON32: f32 = f32::EPSILON;
const EPSILON64: f64 = f64::EPSILON;

fn half_open_f32(raw: u64) -> f32 {
    let mut s = ConstantSource::new(raw);
    let h = draw_f32_half_open(&mut s);
    (h.numerator as f32) / (h.denominator() as f32)
}

fn half_open_f64(raw: u64) -> f64 {
    let mut s = ConstantSource::new(raw);
    let h = draw_f64_half_open(&mut s);
    (h.numerator as f64) / (h.denominator() as f64)
}

fn open_f32(raw: u64) -> f32 {
    let mut s = ConstantSource::new(raw);
    let o = draw_f32_open(&mut s);
    (o.numerator as f32) / (o.denominator() as f32)
}

fn open_f64(raw: u64) -> f64 {
    let mut s = ConstantSource::new(raw);
    let o = draw_f64_open(&mut s);
    (o.numerator as f64) / (o.denominator() as f64)
}

fn closed_f32(raw: u64) -> f32 {
    let mut s = ConstantSource::new(raw);
    let c = draw_f32_closed(&mut s);
    (c.numerator as f32) / (c.denominator() as f32)
}

fn closed_f64(raw: u64) -> f64 {
    let mut s = ConstantSource::new(raw);
    let c = draw_f64_closed(&mut s);
    (c.numerator as f64) / (c.denominator() as f64)
}

#[test]
fn floating_point_edge_cases() {
    assert_eq!(half_open_f32(0), 0.0);
    assert_eq!(half_open_f64(0), 0.0);

    assert_eq!(half_open_f32(1), EPSILON32);
    assert_eq!(half_open_f64(1), EPSILON64);

    assert_eq!(half_open_f32(!0), 1.0 - EPSILON32);
    assert_eq!(half_open_f64(!0), 1.0 - EPSILON64);
}

#[test]
fn fp_closed_edge_cases() {
    let zero32 = closed_f32(0);
    let zero64 = closed_f64(0);
    assert_eq!(zero32, 0.0);
    assert_eq!(zero64, 0.0);

    let one32 = closed_f32(1);
    let one64 = closed_f64(1);
    assert!(EPSILON32 < one32 && one32 < EPSILON32 * 1.01);
    assert!(EPSILON64 < one64 && one64 < EPSILON64 * 1.01);

    let max32 = closed_f32(!0);
    let max64 = closed_f64(!0);
    assert_eq!(max32, 1.0);
    assert_eq!(max64, 1.0);
}

#[test]
fn fp_open_edge_cases() {
    let zero32 = open_f32(0);
    let zero64 = open_f64(0);
    assert_eq!(zero32, 0.0 + EPSILON32 / 4.0);
    assert_eq!(zero64, 0.0 + EPSILON64 / 4.0);

    let one32 = open_f32(1);
    let one64 = open_f64(1);
    assert!(EPSILON32 < one32 && one32 < EPSILON32 * 1.5);
    assert!(EPSILON64 < one64 && one64 < EPSILON64 * 1.5);

    let max32 = open_f32(!0);
    let max64 = open_f64(!0);
    assert_eq!(max32, 1.0 - EPSILON32);
    assert_eq!(max64, 1.0 - EPSILON64);
}

/// A small mixing generator, enough to fill a replay list with varied
/// raw draws.
fn varied_draws(seed: u64, n: usize) -> Vec<u64> {
    let mut state = seed;
    let mut out = Vec::with_capacity(n);
    for _ in 0..n {
        state = state.wrapping_add(0x9E37_79B9_7F4A_7C15);
        let mut z = state;
        z = (z ^ (z >> 30)).wrapping_mul(0xBF58_476D_1CE4_E5B9);
        z = (z ^ (z >> 27)).wrapping_mul(0x94D0_49BB_1331_11EB);
        out.push(z ^ (z >> 31));
    }
    out
}

#[test]
fn rand_open() {
    let mut rng = ReplaySource::new(varied_draws(501, 2_000));
    for _ in 0..1_000 {
        // strict inequalities
        let o = draw_f64_open(&mut rng);
        let f = (o.numerator as f64) / (o.denominator() as f64);
        assert!(0.0 < f && f < 1.0);

        let o = draw_f32_open(&mut rng);
        let f = (o.numerator as f32) / (o.denominator() as f32);
        assert!(0.0 < f && f < 1.0);
    }
}

#[test]
fn rand_closed() {
    let mut rng = ReplaySource::new(varied_draws(502, 2_000));
    for _ in 0..1_000 {
        let c = draw_f64_closed(&mut rng);
        let f = (c.numerator as f64) / (c.denominator() as f64);
        assert!(0.0 <= f && f <= 1.0);

        let c = draw_f32_closed(&mut rng);
        let f = (c.numerator as f32) / (c.denominator() as f32);
        assert!(0.0 <= f && f <= 1.0);
    }
}
