[package]
name = "merecat"
version = "0.1.0"
edition = "2021"
publish = false

[dependencies]
serde_json = "1"
uuid = { version = "1", features = ["v4"] }
url = "2"
blake3 = "1"
dirs = "*"
