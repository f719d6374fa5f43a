[package]
name = "payload_sidecar"
version = "0.1.0"
edition = "2021"
publish = false

[dependencies]
alloy-primitives = { version = "1", default-features = false, features = ["std", "serde"] }
c-kzg = { version = "2", default-features = false, features = ["std", "ethereum_kzg_settings"] }
sha2 = "0.10"
serde = { version = "1", features = ["derive"] }
