[package]
name = "identity_verifier"
version = "0.1.0"
edition = "2021"
publish = false

[dependencies]
base58 = "*"
rand = "*"
schnorrkel = "*"
serde = { version = "*", features = ["derive"] }
rusqlite = { version = "*", features = ["bundled"] }
