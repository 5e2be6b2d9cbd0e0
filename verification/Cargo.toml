[package]
name = "ledger_transaction"
version = "0.1.0"
edition = "2021"
publish = false

[dependencies]
itertools = "0.8"
protobuf = "2.28"
serde = { version = "1", features = ["derive"] }
