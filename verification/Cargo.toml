[package]
name = "tributary"
version = "0.1.0"
edition = "2021"
publish = false

[dependencies]
ciphersuite = { version = "*", features = ["ristretto"] }
flexible-transcript = { version = "*", features = ["recommended"] }
schnorr-signatures = "*"
zeroize = "*"
hex = "*"
tokio = { version = "*", features = ["rt", "time", "macros"] }
