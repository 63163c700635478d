[package]
name = "genetics"
version = "0.1.0"
edition = "2021"
publish = false

[dependencies]
ecdsa = { version = "0.16", features = ["signing", "verifying"] }
elliptic-curve = "0.13"
p224 = "0.13"
p384 = "0.13"
p521 = "0.13"
rand_core = { version = "0.6", features = ["getrandom"] }
sha256 = { version = "1", default-features = false }
