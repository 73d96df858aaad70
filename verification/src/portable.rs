//! Width-generic software backends: scalar loops over the lanes, no
//! hardware vector types, usable on any target.

pub mod xoshiro256plusplusx8;
