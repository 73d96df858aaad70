[package]
name = "simd_rand"
version = "0.1.0"
edition = "2021"
publish = false

[dependencies]
rand_core = "0.6"

[dev-dependencies]
rand = { version = "0.8", features = ["small_rng"] }
