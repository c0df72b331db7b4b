[package]
name = "gcloud_wasm"
version = "0.1.0"
edition = "2021"
publish = false

[dependencies]
base64 = "0.22"
percent-encoding = "2"
rsa = "0.9"
sha2 = { version = "0.10", features = ["oid"] }
serde = { version = "1", features = ["derive"] }
serde_json = "1"
wstd = "*"
wasip2 = "*"
