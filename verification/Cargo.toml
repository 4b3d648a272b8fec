[package]
name = "zcash_consensus"
version = "0.1.0"
edition = "2021"
publish = false

[dependencies]
bellman = "=0.14.0"
bls12_381 = "0.8"
group = "0.13"
jubjub = "0.10"
blake2b_simd = "1"
