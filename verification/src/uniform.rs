//! Integer to uniform-double conversion, at the bit level.
//!
//! A raw 64-bit draw `v` becomes a uniform deviate in `[0, 1)` as
//! `(v >> 11) * 2^-53`.  After the shift only the low 53 bits are non-zero,
//! so the value `x = v >> 11` satisfies `0 <= x < 2^53` and `x * 2^-53` is
//! exactly representable as an IEEE 754 binary64 number: the conversion
//! involves no rounding at all.  This module computes that binary64 bit
//! pattern with integer arithmetic only, and proves it exact to 0 ULP: the
//! contract pins every bit of the result, so an emulated conversion (for
//! hardware without a native unsigned-64-to-double instruction) can be held
//! to the same statement.
//!
//! A finite binary64 number with sign bit 0, biased exponent `E` (not 0) and
//! fraction field `F` has value `(2^52 + F) * 2^(E - 1075)`.  So "the bit
//! pattern `b` is exactly `x * 2^-53`" is, for `x != 0`, the integer
//! equation `2^52 + F == x * 2^(1022 - E)` (both sides scaled by
//! `2^(1075 - E)`), together with `E` low enough that the scale factor is a
//! nonnegative power; `x == 0` maps to the pattern of `+0.0`, which is 0.

use vstd::prelude::*;
use vstd::arithmetic::power2::{pow2, lemma2_to64, lemma2_to64_rest, lemma_pow2_adds, lemma_pow2_strictly_increases};
use vstd::bits::{lemma_u64_shl_is_mul, lemma_u64_mul_pow2_le_max_iff_max_shr};

verus! {

/// The sign bit of a binary64 bit pattern.
pub open spec fn f64_sign_bit(b: u64) -> u64 {
    b >> 63u64
}

/// The biased exponent field (11 bits) of a binary64 bit pattern.
pub open spec fn f64_biased_exponent(b: u64) -> u64 {
    (b >> 52u64) & 0x7ffu64
}

/// The fraction field (52 bits) of a binary64 bit pattern.
pub open spec fn f64_fraction(b: u64) -> u64 {
    b & 0xf_ffff_ffff_ffffu64
}

/// `b` is the binary64 bit pattern whose value is exactly `x * 2^-53`, to
/// 0 ULP.  Requires `x < 2^53`; exactly one `b` satisfies this for each
/// such `x`.
pub open spec fn is_unit_f64_bits(b: u64, x: u64) -> bool {
    if x == 0 {
        b == 0
    } else {
        &&& f64_sign_bit(b) == 0
        &&& 970 <= f64_biased_exponent(b) <= 1022
        &&& pow2(52) + f64_fraction(b) == x * pow2((1022 - f64_biased_exponent(b)) as nat)
    }
}

/// Convert an integer `x < 2^53` to the binary64 bit pattern of
/// `x * 2^-53`, exactly, using integer arithmetic alone.
pub fn u53_to_f64_bits(x: u64) -> (b: u64)
    requires
        x < 0x20_0000_0000_0000,
    ensures
        is_unit_f64_bits(b, x),
{
    if x == 0 {
        return 0;
    }
    proof {
        assert(x >> 53u64 == 0) by (bit_vector)
            requires
                x < 0x20_0000_0000_0000u64,
        ;
    }
    // Find the index of the highest set bit of x; it is at most 52.
    let mut e: u64 = 52;
    while (x >> e) & 1 == 0
        invariant
            e <= 52,
            x >> ((e + 1) as u64) == 0,
            x != 0,
        decreases e,
    {
        proof {
            assert(x >> ((e + 1) as u64) == 0 && (x >> e) & 1u64 == 0 ==> x >> e == 0) by (bit_vector);
            assert(x >> 0u64 == x) by (bit_vector);
            assert(e > 0);
        }
        e = e - 1;
    }
    proof {
        assert((x >> e) & 1u64 == 1 || (x >> e) & 1u64 == 0) by (bit_vector);
    }
    // 2^e <= x < 2^(e+1): shifting left by 52 - e puts the highest set bit
    // at position 52, so the shift is exact multiplication by 2^(52 - e).
    let sh = 52 - e;
    let m = x << sh;
    let frac = m & 0xf_ffff_ffff_ffff;
    let exp = 970 + e;
    let b = (exp << 52u64) | frac;
    proof {
        assert((x << sh) & 0xf_ffff_ffff_ffffu64 == (x << sh) - 0x10_0000_0000_0000u64 && (x << sh)
            - 0x10_0000_0000_0000u64 < 0x10_0000_0000_0000u64) by (bit_vector)
            requires
                sh == ((52 - e) as u64),
                e <= 52u64,
                (x >> e) & 1u64 == 1u64,
                x >> ((e + 1) as u64) == 0u64,
        ;
        assert(x <= 0xffff_ffff_ffff_ffffu64 >> sh) by (bit_vector)
            requires
                sh == ((52 - e) as u64),
                e <= 52u64,
                x >> ((e + 1) as u64) == 0u64,
        ;
        lemma_u64_mul_pow2_le_max_iff_max_shr(x, sh, u64::MAX);
        lemma_u64_shl_is_mul(x, sh);
        assert(((((970 + e) as u64) << 52u64) | frac) >> 63u64 == 0 && (((((970 + e) as u64) << 52u64)
            | frac) >> 52u64) & 0x7ffu64 == ((970 + e) as u64) && (((((970 + e) as u64) << 52u64)
            | frac) & 0xf_ffff_ffff_ffffu64) == frac) by (bit_vector)
            requires
                e <= 52u64,
                frac < 0x10_0000_0000_0000u64,
        ;
        lemma2_to64();
        lemma2_to64_rest();
        assert(pow2(52) + frac == x * pow2((1022 - exp) as nat));
    }
    b
}

/// The exponent of `b1` cannot lie below that of `b2`: if it did, the two
/// scaled equations would force `b1`'s 52-bit fraction field to reach
/// 2^52.
proof fn lemma_unit_f64_bits_exp_not_less(b1: u64, b2: u64, x: u64)
    requires
        x != 0,
        is_unit_f64_bits(b1, x),
        is_unit_f64_bits(b2, x),
    ensures
        f64_biased_exponent(b2) <= f64_biased_exponent(b1),
{
    if f64_biased_exponent(b1) < f64_biased_exponent(b2) {
        let e1 = (1022 - f64_biased_exponent(b1)) as nat;
        let e2 = (1022 - f64_biased_exponent(b2)) as nat;
        let d = (e1 - e2) as nat;
        lemma_pow2_adds(e2, d);
        lemma_pow2_strictly_increases(0, d);
        lemma2_to64();
        lemma2_to64_rest();
        assert(x * pow2(e1) == (x * pow2(e2)) * pow2(d)) by (nonlinear_arith)
            requires
                pow2(e1) == pow2(e2) * pow2(d),
        ;
        assert((x * pow2(e2)) * pow2(d) >= 0x10_0000_0000_0000 * 2) by (nonlinear_arith)
            requires
                x * pow2(e2) >= 0x10_0000_0000_0000,
                pow2(d) >= 2,
        ;
        assert(f64_fraction(b1) < 0x10_0000_0000_0000u64) by (bit_vector);
    }
}

/// The conversion's exactness pins the result completely: for each
/// `x < 2^53` exactly one bit pattern satisfies [`is_unit_f64_bits`], so
/// any emulation meeting that contract — for instance one for hardware
/// without a native conversion instruction — agrees with the
/// mathematically exact conversion to 0 ULP.
pub proof fn lemma_unit_f64_bits_unique(b1: u64, b2: u64, x: u64)
    requires
        x < 0x20_0000_0000_0000,
        is_unit_f64_bits(b1, x),
        is_unit_f64_bits(b2, x),
    ensures
        b1 == b2,
{
    if x != 0 {
        lemma_unit_f64_bits_exp_not_less(b1, b2, x);
        lemma_unit_f64_bits_exp_not_less(b2, b1, x);
        assert(b1 >> 63u64 == b2 >> 63u64 && (b1 >> 52u64) & 0x7ffu64 == (b2 >> 52u64) & 0x7ffu64
            && b1 & 0xf_ffff_ffff_ffffu64 == b2 & 0xf_ffff_ffff_ffffu64 ==> b1 == b2) by (bit_vector);
    }
}

/// Map a raw 64-bit draw to the bit pattern of its uniform deviate in
/// `[0, 1)`: the pattern of `(v >> 11) * 2^-53`, exact to 0 ULP.
pub fn uniform_bits_from_raw(v: u64) -> (b: u64)
    ensures
        is_unit_f64_bits(b, v >> 11u64),
{
    proof {
        assert(v >> 11u64 < 0x20_0000_0000_0000u64) by (bit_vector);
    }
    u53_to_f64_bits(v >> 11)
}

} // verus!
