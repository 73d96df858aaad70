//! The seed model: how a byte buffer becomes a W-lane generator state.
//!
//! A seed for a width-`W` generator is exactly `32 * W` bytes: four
//! contiguous groups of `8 * W` bytes, one group per register.  Each group
//! decodes as `W` little-endian 64-bit integers, lane by lane, assigned
//! respectively to registers `s0, s1, s2, s3`.

use vstd::prelude::*;
use vstd::arithmetic::power2::{pow2, lemma2_to64, lemma2_to64_rest};
use crate::model::LaneState;

verus! {

/// The little-endian 64-bit integer held by the eight bytes of `b`
/// starting at `off`.
pub open spec fn le64_at(b: Seq<u8>, off: int) -> u64
    recommends
        0 <= off,
        off + 8 <= b.len(),
{
    (b[off] as u64) | ((b[off + 1] as u64) << 8u64) | ((b[off + 2] as u64) << 16u64) | ((b[off
        + 3] as u64) << 24u64) | ((b[off + 4] as u64) << 32u64) | ((b[off + 5] as u64) << 40u64) | (
    (b[off + 6] as u64) << 48u64) | ((b[off + 7] as u64) << 56u64)
}

/// The initial state of lane `lane` of a width-`w` generator seeded with
/// `b` (which must hold `32 * w` bytes): register `j` of that lane is the
/// `lane`-th little-endian 64-bit integer of the `j`-th group of `8 * w`
/// bytes.
pub open spec fn seed_lane(b: Seq<u8>, w: nat, lane: int) -> LaneState
    recommends
        b.len() == 32 * w,
        0 <= lane < w,
{
    LaneState {
        s0: le64_at(b, 8 * lane),
        s1: le64_at(b, 8 * w + 8 * lane),
        s2: le64_at(b, 16 * w + 8 * lane),
        s3: le64_at(b, 24 * w + 8 * lane),
    }
}

/// What "little-endian" means: the decoded integer is the base-256
/// weighted sum of its eight bytes, least significant byte first.
pub proof fn lemma_le64_at_weighted_sum(b: Seq<u8>, off: int)
    requires
        0 <= off,
        off + 8 <= b.len(),
    ensures
        le64_at(b, off) as nat == b[off] + b[off + 1] * pow2(8) + b[off + 2] * pow2(16) + b[off
            + 3] * pow2(24) + b[off + 4] * pow2(32) + b[off + 5] * pow2(40) + b[off + 6] * pow2(48)
            + b[off + 7] * pow2(56),
{
    let x0 = b[off];
    let x1 = b[off + 1];
    let x2 = b[off + 2];
    let x3 = b[off + 3];
    let x4 = b[off + 4];
    let x5 = b[off + 5];
    let x6 = b[off + 6];
    let x7 = b[off + 7];
    lemma2_to64();
    lemma2_to64_rest();
    assert((x0 as u64) | ((x1 as u64) << 8u64) | ((x2 as u64) << 16u64) | ((x3 as u64) << 24u64)
        | ((x4 as u64) << 32u64) | ((x5 as u64) << 40u64) | ((x6 as u64) << 48u64) | ((
    x7 as u64) << 56u64) == x0 + x1 * 0x100 + x2 * 0x1_0000 + x3 * 0x100_0000 + x4 * 0x1_0000_0000
        + x5 * 0x100_0000_0000 + x6 * 0x1_0000_0000_0000 + x7 * 0x100_0000_0000_0000)
        by (bit_vector);
}

/// Determinism: two generators constructed from identical seed bytes
/// produce identical draw sequences, lane for lane and draw for draw.
/// Seeding and stepping are pure functions — `from_seed` pins every lane's
/// state to `seed_lane` of the bytes, and each draw to `nth_output` of
/// that state — so no hidden entropy can enter.
pub proof fn lemma_identical_seeds_identical_draws(
    b1: Seq<u8>,
    b2: Seq<u8>,
    w: nat,
    lane: int,
    n: nat,
)
    requires
        b1 == b2,
    ensures
        crate::model::nth_output(seed_lane(b1, w, lane), n) == crate::model::nth_output(
            seed_lane(b2, w, lane),
            n,
        ),
{
}

/// Read the little-endian 64-bit integer at offset `off` of the buffer.
pub fn load_le64<const N: usize>(b: &[u8; N], off: usize) -> (r: u64)
    requires
        off + 8 <= N,
    ensures
        r == le64_at(b@, off as int),
{
    (b[off] as u64) | ((b[off + 1] as u64) << 8u64) | ((b[off + 2] as u64) << 16u64) | ((b[off
        + 3] as u64) << 24u64) | ((b[off + 4] as u64) << 32u64) | ((b[off + 5] as u64) << 40u64) | (
    (b[off + 6] as u64) << 48u64) | ((b[off + 7] as u64) << 56u64)
}

} // verus!
