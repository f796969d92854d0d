[package]
name = "inscribes"
version = "0.1.0"
edition = "2021"
publish = false

[dependencies]
bitcoin = { version = "0.30", features = ["rand-std"] }
bitcoincore-rpc = "0.17"
log = "0.4"
serde = { version = "1", features = ["derive"] }
serde_json = "1"
