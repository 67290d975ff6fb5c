[package]
name = "key-utils"
version = "0.1.0"
edition = "2021"
publish = false

[dependencies]
bs58 = "*"
ed25519-dalek = "*"
serde = { version = "*", features = ["derive"] }
thiserror = "*"

[dev-dependencies]
serde_json = "*"
rand = "*"
