[package]
name = "papi_guard"
version = "0.1.0"
edition = "2021"
publish = false

[dependencies]
candid = "*"
hex = "*"
ic-cdk = "*"
ic-ledger-types = "*"
lazy_static = "*"
serde = { version = "1", features = ["derive"] }
serde_bytes = "*"
