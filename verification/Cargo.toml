[package]
name = "contract_dispatch"
version = "0.1.0"
edition = "2021"
publish = false

[dependencies]
hex = "0.4"
base64 = "0.13"
log = "0.4"
serde = { version = "1", features = ["derive"] }
serde_json = "1"
