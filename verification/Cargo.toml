[package]
name = "kaspa_ng"
version = "0.1.0"
edition = "2021"
publish = false

[dependencies]
xxhash-rust = { version = "*", features = ["xxh3"] }
slug = "*"
convert_case = "*"
kaspa-addresses = "*"
kaspa-bip32 = "*"
kaspa-consensus-core = "*"
serde = { version = "*", features = ["derive"] }

[dev-dependencies]
serde_json = "*"
