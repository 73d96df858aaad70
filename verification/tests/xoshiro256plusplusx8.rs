use rand::RngCore;
use simd_rand::{Xoshiro256PlusPlusX8, Xoshiro256PlusPlusX8Seed};

/// The fixed byte pattern that seeds every lane of every register
/// identically: register j of every lane holds j + 1.
fn reference_seed_bytes() -> [u8; 256] {
    let mut bytes = [0u8; 256];
    for reg in 0..4 {
        for lane in 0..8 {
            bytes[reg * 64 + lane * 8] = (reg + 1) as u8;
        }
    }
    bytes
}

#[test]
fn reference() {
    let seed = Xoshiro256PlusPlusX8Seed::new(reference_seed_bytes());
    let mut rng = Xoshiro256PlusPlusX8::from_seed(seed);
    // These values were produced with the canonical scalar reference
    // implementation of xoshiro256++, started from the state (1, 2, 3, 4).
    let expected = [
        41943041u64,
        58720359,
        3588806011781223,
        3591011842654386,
        9228616714210784205,
        9973669472204895162,
        14011001112246962877,
        12406186145184390807,
        15849039046786891736,
        10450023813501588000,
    ];
    for e in expected {
        let mem = rng.next_u64x8();
        for &v in mem.iter() {
            assert_eq!(v, e);
        }
    }
}

#[test]
fn sample_u64x8() {
    let mut bytes = [0u8; 256];
    rand::thread_rng().fill_bytes(&mut bytes);
    let seed = Xoshiro256PlusPlusX8Seed::new(bytes);
    let mut rng = Xoshiro256PlusPlusX8::from_seed(seed);

    let values = rng.next_u64x8();

    assert!(values.iter().all(|&v| v != 0));
    for i in 0..values.len() {
        for j in 0..i {
            assert_ne!(values[i], values[j]);
        }
    }
    println!("{values:?}");

    let values = rng.next_u64x8();

    assert!(values.iter().all(|&v| v != 0));
    for i in 0..values.len() {
        for j in 0..i {
            assert_ne!(values[i], values[j]);
        }
    }
    println!("{values:?}");
}

#[test]
fn sample_f64x4() {
    let mut bytes = [0u8; 256];
    rand::thread_rng().fill_bytes(&mut bytes);
    let seed = Xoshiro256PlusPlusX8Seed::new(bytes);
    let mut rng = Xoshiro256PlusPlusX8::from_seed(seed);

    let values = rng.next_f64x8_bits().map(f64::from_bits);

    assert!(values.iter().all(|&v| v != 0.0));
    println!("{values:?}");

    let values = rng.next_f64x8_bits().map(f64::from_bits);

    assert!(values.iter().all(|&v| v != 0.0));
    println!("{values:?}");
}

#[test]
fn sample_f64x4_distribution() {
    let mut bytes = [0u8; 256];
    rand::thread_rng().fill_bytes(&mut bytes);
    let seed = Xoshiro256PlusPlusX8Seed::new(bytes);
    let mut rng = Xoshiro256PlusPlusX8::from_seed(seed);

    const N: usize = 10_000_000;
    let mut sum = 0.0f64;
    let mut sum_sq = 0.0f64;
    let mut drawn: usize = 0;
    while drawn < N {
        let vector = rng.next_f64x8_bits().map(f64::from_bits);
        for &v in vector.iter() {
            if drawn == N {
                break;
            }
            assert!((0.0..1.0).contains(&v));
            sum += v;
            sum_sq += v * v;
            drawn += 1;
        }
    }
    let mean = sum / N as f64;
    let variance = sum_sq / N as f64 - mean * mean;
    // A uniform distribution on [0, 1) has mean 1/2 and variance 1/12.
    assert!((mean - 0.5).abs() < 1e-3, "mean {mean}");
    assert!((variance - 1.0 / 12.0).abs() < 1e-3, "variance {variance}");
}

#[test]
fn x8_identical_seeds_identical_sequences() {
    let mut bytes = [0u8; 256];
    rand::thread_rng().fill_bytes(&mut bytes);
    let mut a = Xoshiro256PlusPlusX8::from_seed(Xoshiro256PlusPlusX8Seed::new(bytes));
    let mut b = Xoshiro256PlusPlusX8::from_seed(Xoshiro256PlusPlusX8Seed::new(bytes));
    for _ in 0..100 {
        assert_eq!(a.next_u64x8(), b.next_u64x8());
    }
    for _ in 0..100 {
        assert_eq!(a.next_f64x8_bits(), b.next_f64x8_bits());
    }
}

#[test]
fn x8_seed_from_vec_length_contract() {
    assert!(Xoshiro256PlusPlusX8Seed::try_from_vec(&vec![0u8; 255]).is_none());
    assert!(Xoshiro256PlusPlusX8Seed::try_from_vec(&vec![0u8; 257]).is_none());
    let seed = Xoshiro256PlusPlusX8Seed::try_from_vec(&reference_seed_bytes().to_vec()).unwrap();
    let mut rng = Xoshiro256PlusPlusX8::from_seed(seed);
    assert_eq!(rng.next_u64x8()[0], 41943041);
}
