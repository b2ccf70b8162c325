[package]
name = "slice_proof"
version = "0.1.0"
edition = "2021"
publish = false

[dependencies]
anyhow = "1"
bao = "0.12"

[dev-dependencies]
rand = "0.8"
