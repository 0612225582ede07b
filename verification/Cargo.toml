[package]
name = "block_payload"
version = "0.1.0"
edition = "2021"
publish = false

[dependencies]
chrono = { version = "=0.4.45", default-features = false, features = ["std"] }
serde = { version = "=1.0.229", features = ["derive"] }
serde_bytes = "=0.11.19"
candid = "=0.10.39"
rand = "=0.8.8"
http = "=0.2.12"
tempfile = "=3.27.0"
hyper = { version = "0.14", features = ["full"] }
tokio = { version = "1", features = ["full"] }
tower = { version = "0.4", features = ["util", "load-shed"] }
byte-unit = "4"
serde_cbor = "0.11"
