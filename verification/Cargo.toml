[package]
name = "etable_conversion"
version = "0.1.0"
edition = "2021"
publish = false

[dependencies]
halo2_proofs = "*"
num-bigint = "0.4"
