[package]
name = "iroha_core"
version = "0.1.0"
edition = "2021"
publish = false

[dependencies]
dashmap = "5.4"
eyre = "0.6"
parity-scale-codec = { version = "3.1", features = ["derive"] }
serde = { version = "1.0", features = ["derive"] }
