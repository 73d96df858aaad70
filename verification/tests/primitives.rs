use rand::RngCore;
use simd_rand::rotate_left;
use simd_rand::uniform::{u53_to_f64_bits, uniform_bits_from_raw};

/// 2^-53, the scale of the top-53-bits uniform conversion.
const UNIT: f64 = 1.1102230246251565E-16;

#[test]
fn rotate_matches_native_rotate() {
    let samples = [
        0u64,
        1,
        0x8000_0000_0000_0000,
        0xdead_beef_cafe_f00d,
        u64::MAX,
        41943041,
    ];
    for &x in samples.iter() {
        for k in 0..64u64 {
            assert_eq!(rotate_left(x, k), x.rotate_left(k as u32));
        }
    }
}

#[test]
fn rotate_composes_additively() {
    let x = 0x0123_4567_89ab_cdefu64;
    assert_eq!(rotate_left(rotate_left(x, 23), 17), rotate_left(x, 40));
    assert_eq!(rotate_left(rotate_left(x, 45), 45), rotate_left(x, 26));
    assert_eq!(rotate_left(rotate_left(x, 63), 1), x);
    assert_eq!(rotate_left(x, 0), x);
}

#[test]
fn conversion_is_exact_on_edge_values() {
    assert_eq!(f64::from_bits(u53_to_f64_bits(0)), 0.0);
    assert_eq!(f64::from_bits(u53_to_f64_bits(1)), UNIT);
    assert_eq!(f64::from_bits(u53_to_f64_bits(2)), 2.0 * UNIT);
    assert_eq!(f64::from_bits(u53_to_f64_bits(3)), 3.0 * UNIT);
    let top = (1u64 << 53) - 1;
    assert_eq!(f64::from_bits(u53_to_f64_bits(top)), top as f64 * UNIT);
    // The largest deviate lies strictly below 1, one half-ULP away.
    assert!(f64::from_bits(u53_to_f64_bits(top)) < 1.0);
    assert_eq!(f64::from_bits(u53_to_f64_bits(1 << 52)), 0.5);
}

#[test]
fn conversion_is_exact_on_random_values() {
    let mut rng = rand::thread_rng();
    for _ in 0..10_000 {
        let v = rng.next_u64();
        let x = v >> 11;
        // x < 2^53, so `x as f64` is exact, and so is scaling by 2^-53:
        // the two routes must agree bit for bit.
        let direct = x as f64 * UNIT;
        assert_eq!(f64::from_bits(uniform_bits_from_raw(v)), direct);
        assert!((0.0..1.0).contains(&direct));
    }
}
