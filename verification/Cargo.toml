[package]
name = "celo_faucet"
version = "0.1.0"
edition = "2021"
publish = false

[dependencies]
alloy-primitives = "*"
alloy-signer = "*"
alloy-signer-local = "*"
anyhow = "*"
dotenvy = "*"
reqwest = { version = "*", default-features = false, features = ["blocking", "json"] }
serde = { version = "*", features = ["derive"] }
serde_json = "*"
sled = "*"

[dev-dependencies]
alloy-consensus = "*"
alloy-rlp = "*"
hex = "*"
