//! The 4-lane xoshiro256++ generator.
//!
//! A hardware-vectorized twin of this backend (256-bit integer vectors,
//! four 64-bit lanes) must produce byte-for-byte the same outputs; its
//! contract is this file's contract, and this software backend is the
//! reference it is held to.

use vstd::prelude::*;
use crate::model::{lane_step, output_plusplus, step_state, LaneState};
use crate::seed::{le64_at, load_le64, seed_lane};
use crate::uniform::{is_unit_f64_bits, uniform_bits_from_raw};

verus! {

broadcast use vstd::array::group_array_axioms;

/// A seed for the 4-lane generator: exactly `32 * 4 = 128` bytes.
pub struct Xoshiro256PlusPlusX4Seed(pub [u8; 128]);

impl Xoshiro256PlusPlusX4Seed {
    pub fn new(seed: [u8; 128]) -> (r: Self)
        ensures
            r@ == seed@,
    {
        Self(seed)
    }

    /// The seed bytes themselves.
    pub closed spec fn view(&self) -> Seq<u8> {
        self.0@
    }

    /// Accept a seed from a plain byte vector: `None` exactly when the
    /// buffer does not hold the required `32 * 4` bytes (the
    /// configuration fault of the seeding contract).
    pub fn try_from_vec(bytes: &Vec<u8>) -> (r: Option<Self>)
        ensures
            match r {
                Some(seed) => bytes@.len() == 128 && seed@ == bytes@,
                None => bytes@.len() != 128,
            },
    {
        if bytes.len() != 128 {
            return None;
        }
        let mut buf: [u8; 128] = [0u8; 128];
        let mut i: usize = 0;
        while i < 128
            invariant
                i <= 128,
                bytes@.len() == 128,
                forall|j: int| 0 <= j < i ==> buf@[j] == bytes@[j],
            decreases 128 - i,
        {
            buf[i] = bytes[i];
            i = i + 1;
        }
        proof {
            assert(buf@ =~= bytes@);
        }
        Some(Self(buf))
    }
}

impl Default for Xoshiro256PlusPlusX4Seed {
    /// The all-zero seed: accepted by the transform (xoshiro is defined
    /// over all states), but a degenerate starting point — callers are
    /// expected to overwrite it with real seed material.
    fn default() -> (r: Xoshiro256PlusPlusX4Seed)
        ensures
            r@.len() == 128,
            forall|i: int| 0 <= i < 128 ==> r@[i] == 0,
    {
        Xoshiro256PlusPlusX4Seed([0; 128])
    }
}

/// Four 64-bit lanes of raw output: one draw of the 4-lane generator.
pub struct U64x4(pub [u64; 4]);

/// Four independent scalar xoshiro256++ instances advanced in lockstep.
/// Register `sj` holds lane `i`'s register `j` in element `i`.
pub struct Xoshiro256PlusPlusX4 {
    s0: [u64; 4],
    s1: [u64; 4],
    s2: [u64; 4],
    s3: [u64; 4],
}

impl Xoshiro256PlusPlusX4 {
    /// The scalar state of lane `i`.
    pub closed spec fn lane(&self, i: int) -> LaneState {
        LaneState { s0: self.s0@[i], s1: self.s1@[i], s2: self.s2@[i], s3: self.s3@[i] }
    }

    /// Construct the generator from seed bytes: lane `i` of register `j`
    /// is the `i`-th little-endian 64-bit integer of the `j`-th group of
    /// 32 bytes.
    pub fn from_seed(seed: Xoshiro256PlusPlusX4Seed) -> (r: Self)
        ensures
            forall|i: int| 0 <= i < 4 ==> r.lane(i) == seed_lane(seed@, 4, i),
    {
        let mut s0: [u64; 4] = [0u64; 4];
        let mut s1: [u64; 4] = [0u64; 4];
        let mut s2: [u64; 4] = [0u64; 4];
        let mut s3: [u64; 4] = [0u64; 4];
        let mut i: usize = 0;
        while i < 4
            invariant
                i <= 4,
                forall|j: int| 0 <= j < i ==> s0@[j] == le64_at(seed@, 8 * j),
                forall|j: int| 0 <= j < i ==> s1@[j] == le64_at(seed@, 32 + 8 * j),
                forall|j: int| 0 <= j < i ==> s2@[j] == le64_at(seed@, 64 + 8 * j),
                forall|j: int| 0 <= j < i ==> s3@[j] == le64_at(seed@, 96 + 8 * j),
            decreases 4 - i,
        {
            s0[i] = load_le64(&seed.0, 8 * i);
            s1[i] = load_le64(&seed.0, 32 + 8 * i);
            s2[i] = load_le64(&seed.0, 64 + 8 * i);
            s3[i] = load_le64(&seed.0, 96 + 8 * i);
            i = i + 1;
        }
        Self { s0, s1, s2, s3 }
    }

    /// One step of all four lanes: fills `mem` with the four "++" outputs
    /// and advances every lane's state by exactly one scalar transition.
    pub fn next_u64x4(&mut self, mem: &mut U64x4)
        ensures
            forall|i: int|
                0 <= i < 4 ==> final(mem).0@[i] == output_plusplus(old(self).lane(i)),
            forall|i: int| 0 <= i < 4 ==> final(self).lane(i) == step_state(old(self).lane(i)),
    {
        let ghost orig = *self;
        let mut s0 = self.s0;
        let mut s1 = self.s1;
        let mut s2 = self.s2;
        let mut s3 = self.s3;
        let mut out: [u64; 4] = [0u64; 4];
        let mut i: usize = 0;
        while i < 4
            invariant
                i <= 4,
                forall|j: int| 0 <= j < i ==> out@[j] == output_plusplus(orig.lane(j)),
                forall|j: int| 0 <= j < i ==> s0@[j] == step_state(orig.lane(j)).s0 && s1@[j]
                    == step_state(orig.lane(j)).s1 && s2@[j] == step_state(orig.lane(j)).s2 && s3@[j]
                    == step_state(orig.lane(j)).s3,
                forall|j: int| i <= j < 4 ==> s0@[j] == orig.lane(j).s0 && s1@[j] == orig.lane(j).s1
                    && s2@[j] == orig.lane(j).s2 && s3@[j] == orig.lane(j).s3,
            decreases 4 - i,
        {
            let st = LaneState { s0: s0[i], s1: s1[i], s2: s2[i], s3: s3[i] };
            proof {
                assert(st == orig.lane(i as int));
            }
            let (ns, o) = lane_step(st);
            s0[i] = ns.s0;
            s1[i] = ns.s1;
            s2[i] = ns.s2;
            s3[i] = ns.s3;
            out[i] = o;
            i = i + 1;
        }
        self.s0 = s0;
        self.s1 = s1;
        self.s2 = s2;
        self.s3 = s3;
        mem.0 = out;
    }

    /// One uniform draw of all four lanes: fills `mem` with the binary64
    /// bit patterns of the four deviates in `[0, 1)`, each exactly
    /// `(v >> 11) * 2^-53` for that lane's raw output `v`.  One raw draw
    /// is consumed: the state advances exactly once.
    pub fn next_f64x4_bits(&mut self, mem: &mut U64x4)
        ensures
            forall|i: int|
                0 <= i < 4 ==> is_unit_f64_bits(
                    final(mem).0@[i],
                    output_plusplus(old(self).lane(i)) >> 11u64,
                ),
            forall|i: int| 0 <= i < 4 ==> final(self).lane(i) == step_state(old(self).lane(i)),
    {
        let ghost orig = *self;
        let mut raw = U64x4([0u64; 4]);
        self.next_u64x4(&mut raw);
        let mut out: [u64; 4] = [0u64; 4];
        let mut i: usize = 0;
        while i < 4
            invariant
                i <= 4,
                forall|j: int| 0 <= j < 4 ==> raw.0@[j] == output_plusplus(orig.lane(j)),
                forall|j: int|
                    0 <= j < i ==> is_unit_f64_bits(
                        out@[j],
                        output_plusplus(orig.lane(j)) >> 11u64,
                    ),
            decreases 4 - i,
        {
            out[i] = uniform_bits_from_raw(raw.0[i]);
            i = i + 1;
        }
        mem.0 = out;
    }
}

} // verus!
