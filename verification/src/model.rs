//! The scalar reference model of xoshiro256++.
//!
//! One lane of a vectorized generator is a full 256-bit xoshiro256++ state:
//! four 64-bit registers.  The specification functions here define, once and
//! for all, what one transition ("step") of the scalar algorithm does and
//! what it outputs.  Every backend, whatever its width, promises in its
//! contracts that each of its lanes follows exactly this model; that is the
//! engine's primary correctness contract.

use vstd::prelude::*;

verus! {

/// The 256-bit state of a single scalar xoshiro256++ lane.
#[derive(Clone, Copy, PartialEq, Eq, Structural, Debug)]
pub struct LaneState {
    pub s0: u64,
    pub s1: u64,
    pub s2: u64,
    pub s3: u64,
}

/// Rotate a 64-bit value left by `k` bits, `k < 64`: every bit is kept,
/// circularly shifted.  The standard xoshiro bit primitive.
pub open spec fn spec_rotate_left(x: u64, k: u64) -> u64
    recommends
        k < 64,
{
    if k == 0 {
        x
    } else {
        (x << k) | (x >> (64 - k) as u64)
    }
}

/// Rotate-left on one 64-bit lane: `(x << k) | (x >> (64 - k))`.
pub fn rotate_left(x: u64, k: u64) -> (r: u64)
    requires
        k < 64,
    ensures
        r == spec_rotate_left(x, k),
{
    if k == 0 {
        x
    } else {
        (x << k) | (x >> (64 - k))
    }
}

/// The register transition of xoshiro256 (shared by the "++" and "+"
/// variants): the new state after one step.
pub open spec fn step_state(s: LaneState) -> LaneState {
    let t = s.s1 << 17u64;
    let s2a = s.s2 ^ s.s0;
    let s3a = s.s3 ^ s.s1;
    let s1a = s.s1 ^ s2a;
    let s0a = s.s0 ^ s3a;
    let s2b = s2a ^ t;
    let s3b = spec_rotate_left(s3a, 45);
    LaneState { s0: s0a, s1: s1a, s2: s2b, s3: s3b }
}

/// The "++" output function: `rotl(s0 + s3, 23) + s0`, with wrapping
/// 64-bit addition.  Computed from the state *before* the transition.
pub open spec fn output_plusplus(s: LaneState) -> u64 {
    spec_rotate_left(s.s0.wrapping_add(s.s3), 23).wrapping_add(s.s0)
}

/// The draw a lane in state `s` produces on its `n`-th step (counting from
/// 0): the whole future of a lane is a pure function of its state.
pub open spec fn nth_output(s: LaneState, n: nat) -> u64
    decreases n,
{
    if n == 0 {
        output_plusplus(s)
    } else {
        nth_output(step_state(s), (n - 1) as nat)
    }
}

/// Rotating by `k + 1` is rotating by `k` and then by one more bit.
#[verifier::rlimit(100)]
#[verifier::spinoff_prover]
proof fn lemma_rotate_one_more(x: u64, k: u64)
    by (bit_vector)
    requires
        k < 63,
    ensures
        spec_rotate_left(x, (k + 1) as u64) == ((spec_rotate_left(x, k) << 1u64) | (
        spec_rotate_left(x, k) >> 63u64)),
{
}

/// One more single-bit rotation after a rotation by 63 returns every bit
/// home.
proof fn lemma_rotate_wraps(x: u64)
    by (bit_vector)
    ensures
        ((spec_rotate_left(x, 63) << 1u64) | (spec_rotate_left(x, 63) >> 63u64)) == x,
{
}

/// Rotates compose additively: for any shifts `a, b < 64`, rotating by `a`
/// and then by `b` rotates by `(a + b) mod 64` — the wrap case
/// `a + b >= 64` included — and rotating by 0 changes nothing.
pub proof fn lemma_rotate_left_compose(x: u64, a: u64, b: u64)
    requires
        a < 64,
        b < 64,
    ensures
        spec_rotate_left(spec_rotate_left(x, a), b) == spec_rotate_left(x, ((a + b) % 64) as u64),
        spec_rotate_left(x, 0) == x,
    decreases b,
{
    if b == 0 {
        assert(((a + 0) % 64) as u64 == a);
    } else {
        lemma_rotate_left_compose(x, a, (b - 1) as u64);
        let c = ((a + b - 1) % 64) as u64;
        lemma_rotate_one_more(spec_rotate_left(x, a), (b - 1) as u64);
        if c < 63 {
            lemma_rotate_one_more(x, c);
            assert(((a + b) % 64) as u64 == c + 1);
        } else {
            lemma_rotate_wraps(x);
            assert(((a + b) % 64) as u64 == 0);
        }
    }
}

/// The draw sequence from a stepped state is the tail of the draw
/// sequence from the original state: stepping and indexing commute.
pub proof fn lemma_nth_output_step(s: LaneState, n: nat)
    ensures
        nth_output(step_state(s), n) == nth_output(s, n + 1),
{
}

/// Cross-backend, cross-width equivalence: a lane's entire draw sequence
/// is a function of its 256-bit scalar state alone.  Every backend's draw
/// contract ties lane `i`'s outputs to `nth_output` of that lane's seeded
/// state, in which no vector width appears; so two backends of any widths
/// whose lanes start from equal states produce identical sequences, raw
/// and (since the uniform conversion is a function of the raw draw)
/// uniform alike.
pub proof fn lemma_lane_equivalence(a: LaneState, b: LaneState, n: nat)
    requires
        a == b,
    ensures
        nth_output(a, n) == nth_output(b, n),
{
}

/// Advance one lane: returns the new state and the "++" output.
pub fn lane_step(s: LaneState) -> (r: (LaneState, u64))
    ensures
        r.0 == step_state(s),
        r.1 == output_plusplus(s),
{
    let out = rotate_left(s.s0.wrapping_add(s.s3), 23).wrapping_add(s.s0);
    let t = s.s1 << 17u64;
    let s2a = s.s2 ^ s.s0;
    let s3a = s.s3 ^ s.s1;
    let s1a = s.s1 ^ s2a;
    let s0a = s.s0 ^ s3a;
    let s2b = s2a ^ t;
    let s3b = rotate_left(s3a, 45);
    (LaneState { s0: s0a, s1: s1a, s2: s2b, s3: s3b }, out)
}

} // verus!
