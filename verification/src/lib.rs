//! A SIMD-style, multi-lane xoshiro256++ pseudorandom generator engine.
//!
//! Each generator advances `W` independent instances of the scalar
//! xoshiro256++ algorithm in lockstep: one call yields `W` draws, each lane
//! bit-identical to the canonical scalar reference algorithm run on that
//! lane's initial state alone.  The scalar algorithm itself is written down
//! once, as the specification-level model in [`model`], and every backend's
//! contract ties each lane's behaviour to that single model, which is what
//! makes backends of matching width interchangeable.

pub mod model;
pub mod portable;
pub mod seed;
pub mod uniform;
pub mod xoshiro256plusplus;

pub use model::rotate_left;
pub use portable::xoshiro256plusplusx8::{Xoshiro256PlusPlusX8, Xoshiro256PlusPlusX8Seed};
pub use xoshiro256plusplus::{U64x4, Xoshiro256PlusPlusX4, Xoshiro256PlusPlusX4Seed};
