//! The 8-lane portable xoshiro256++ generator.

use vstd::prelude::*;
use crate::model::{lane_step, output_plusplus, step_state, LaneState};
use crate::seed::{le64_at, load_le64, seed_lane};
use crate::uniform::{is_unit_f64_bits, uniform_bits_from_raw};

verus! {

broadcast use vstd::array::group_array_axioms;

/// A seed for the 8-lane generator: exactly `32 * 8 = 256` bytes.  The
/// fixed-length array makes the seed-size contract impossible to violate
/// once a value of this type exists.
pub struct Xoshiro256PlusPlusX8Seed(pub [u8; 256]);

impl Xoshiro256PlusPlusX8Seed {
    pub fn new(seed: [u8; 256]) -> (r: Self)
        ensures
            r@ == seed@,
    {
        Self(seed)
    }

    /// The seed bytes themselves.
    pub closed spec fn view(&self) -> Seq<u8> {
        self.0@
    }

    /// Accept a seed from a plain byte vector: `None` exactly when the
    /// buffer does not hold the required `32 * 8` bytes (the
    /// configuration fault of the seeding contract).
    pub fn try_from_vec(bytes: &Vec<u8>) -> (r: Option<Self>)
        ensures
            match r {
                Some(seed) => bytes@.len() == 256 && seed@ == bytes@,
                None => bytes@.len() != 256,
            },
    {
        if bytes.len() != 256 {
            return None;
        }
        let mut buf: [u8; 256] = [0u8; 256];
        let mut i: usize = 0;
        while i < 256
            invariant
                i <= 256,
                bytes@.len() == 256,
                forall|j: int| 0 <= j < i ==> buf@[j] == bytes@[j],
            decreases 256 - i,
        {
            buf[i] = bytes[i];
            i = i + 1;
        }
        proof {
            assert(buf@ =~= bytes@);
        }
        Some(Self(buf))
    }
}

impl Default for Xoshiro256PlusPlusX8Seed {
    /// The all-zero seed: accepted by the transform (xoshiro is defined
    /// over all states), but a degenerate starting point — callers are
    /// expected to overwrite it with real seed material.
    fn default() -> (r: Xoshiro256PlusPlusX8Seed)
        ensures
            r@.len() == 256,
            forall|i: int| 0 <= i < 256 ==> r@[i] == 0,
    {
        Xoshiro256PlusPlusX8Seed([0; 256])
    }
}

/// Eight independent scalar xoshiro256++ instances advanced in lockstep.
/// Register `sj` holds lane `i`'s register `j` in element `i`.
pub struct Xoshiro256PlusPlusX8 {
    s0: [u64; 8],
    s1: [u64; 8],
    s2: [u64; 8],
    s3: [u64; 8],
}

impl Xoshiro256PlusPlusX8 {
    /// The scalar state of lane `i`.
    pub closed spec fn lane(&self, i: int) -> LaneState {
        LaneState { s0: self.s0@[i], s1: self.s1@[i], s2: self.s2@[i], s3: self.s3@[i] }
    }

    /// Construct the generator from seed bytes: lane `i` of register `j`
    /// is the `i`-th little-endian 64-bit integer of the `j`-th group of
    /// 64 bytes.
    pub fn from_seed(seed: Xoshiro256PlusPlusX8Seed) -> (r: Self)
        ensures
            forall|i: int| 0 <= i < 8 ==> r.lane(i) == seed_lane(seed@, 8, i),
    {
        let mut s0: [u64; 8] = [0u64; 8];
        let mut s1: [u64; 8] = [0u64; 8];
        let mut s2: [u64; 8] = [0u64; 8];
        let mut s3: [u64; 8] = [0u64; 8];
        let mut i: usize = 0;
        while i < 8
            invariant
                i <= 8,
                forall|j: int| 0 <= j < i ==> s0@[j] == le64_at(seed@, 8 * j),
                forall|j: int| 0 <= j < i ==> s1@[j] == le64_at(seed@, 64 + 8 * j),
                forall|j: int| 0 <= j < i ==> s2@[j] == le64_at(seed@, 128 + 8 * j),
                forall|j: int| 0 <= j < i ==> s3@[j] == le64_at(seed@, 192 + 8 * j),
            decreases 8 - i,
        {
            s0[i] = load_le64(&seed.0, 8 * i);
            s1[i] = load_le64(&seed.0, 64 + 8 * i);
            s2[i] = load_le64(&seed.0, 128 + 8 * i);
            s3[i] = load_le64(&seed.0, 192 + 8 * i);
            i = i + 1;
        }
        Self { s0, s1, s2, s3 }
    }

    /// One step of all eight lanes: returns the eight "++" outputs and
    /// advances every lane's state by exactly one scalar transition.
    pub fn next_u64x8(&mut self) -> (r: [u64; 8])
        ensures
            forall|i: int| 0 <= i < 8 ==> r@[i] == output_plusplus(old(self).lane(i)),
            forall|i: int| 0 <= i < 8 ==> final(self).lane(i) == step_state(old(self).lane(i)),
    {
        let ghost orig = *self;
        let mut s0 = self.s0;
        let mut s1 = self.s1;
        let mut s2 = self.s2;
        let mut s3 = self.s3;
        let mut out: [u64; 8] = [0u64; 8];
        let mut i: usize = 0;
        while i < 8
            invariant
                i <= 8,
                forall|j: int| 0 <= j < i ==> out@[j] == output_plusplus(orig.lane(j)),
                forall|j: int| 0 <= j < i ==> s0@[j] == step_state(orig.lane(j)).s0 && s1@[j]
                    == step_state(orig.lane(j)).s1 && s2@[j] == step_state(orig.lane(j)).s2 && s3@[j]
                    == step_state(orig.lane(j)).s3,
                forall|j: int| i <= j < 8 ==> s0@[j] == orig.lane(j).s0 && s1@[j] == orig.lane(j).s1
                    && s2@[j] == orig.lane(j).s2 && s3@[j] == orig.lane(j).s3,
            decreases 8 - i,
        {
            let st = LaneState { s0: s0[i], s1: s1[i], s2: s2[i], s3: s3[i] };
            proof {
                assert(st == orig.lane(i as int));
            }
            let (ns, o) = lane_step(st);
            s0[i] = ns.s0;
            s1[i] = ns.s1;
            s2[i] = ns.s2;
            s3[i] = ns.s3;
            out[i] = o;
            i = i + 1;
        }
        self.s0 = s0;
        self.s1 = s1;
        self.s2 = s2;
        self.s3 = s3;
        out
    }

    /// One uniform draw of all eight lanes: the binary64 bit patterns of
    /// the eight deviates in `[0, 1)`, each exactly `(v >> 11) * 2^-53`
    /// for that lane's raw output `v`.  One raw draw is consumed: the
    /// state advances exactly once.
    pub fn next_f64x8_bits(&mut self) -> (r: [u64; 8])
        ensures
            forall|i: int|
                0 <= i < 8 ==> is_unit_f64_bits(
                    r@[i],
                    output_plusplus(old(self).lane(i)) >> 11u64,
                ),
            forall|i: int| 0 <= i < 8 ==> final(self).lane(i) == step_state(old(self).lane(i)),
    {
        let ghost orig = *self;
        let raw = self.next_u64x8();
        let mut out: [u64; 8] = [0u64; 8];
        let mut i: usize = 0;
        while i < 8
            invariant
                i <= 8,
                forall|j: int| 0 <= j < 8 ==> raw@[j] == output_plusplus(orig.lane(j)),
                forall|j: int|
                    0 <= j < i ==> is_unit_f64_bits(
                        out@[j],
                        output_plusplus(orig.lane(j)) >> 11u64,
                    ),
            decreases 8 - i,
        {
            out[i] = uniform_bits_from_raw(raw[i]);
            i = i + 1;
        }
        out
    }
}

} // verus!
