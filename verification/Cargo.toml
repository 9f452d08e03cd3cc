[package]
name = "payment_connectors"
version = "0.1.0"
edition = "2021"
publish = false

[dependencies]
base64 = "0.22"
url = "2"
serde = { version = "1", features = ["derive"] }
serde_json = "1"
uuid = { version = "1", features = ["v4"] }
time = { version = "0.3", features = ["serde", "parsing", "formatting", "macros"] }
hex = "0.4"
ring = "0.17"
async-trait = "0.1"
