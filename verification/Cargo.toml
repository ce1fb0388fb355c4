[package]
name = "stepper"
version = "0.1.0"
edition = "2021"
publish = false

[dependencies]
bytes = "=1.12.1"
encoding_rs = "=0.8.42"
reqwest = { version = "=0.11.27", default-features = false, features = ["cookies", "gzip", "multipart"] }
reqwest_cookie_store = "=0.6.0"
serde = "=1.0.229"
serde_json = "=1.0.154"

[dev-dependencies]
http = "=0.2.12"
tokio = { version = "=1.54.1", features = ["io-util", "net", "rt", "time"] }
