[package]
name = "offst"
version = "0.1.0"
edition = "2021"
publish = false

[dependencies]
byteorder = "1"
im = "15"
sha2 = "0.10"
ed25519-dalek = "2"
