[package]
name = "mumble_client"
version = "0.1.0"
edition = "2021"
publish = false

[dependencies]
bytes = "1"
openssl = "0.10"
prost = "0.13"
tokio = { version = "1", features = ["io-util", "macros", "net", "rt-multi-thread", "sync", "time"] }
tokio-openssl = "0.6"
