[package]
name = "transport_upgrade"
version = "0.1.0"
edition = "2021"
publish = false

[dependencies]
anyhow = "1"
bytes = "1"
hex = "0.4"
iroh = "*"
log = "0.4"
parity-tokio-ipc = "0.9"
protobuf = "3"
quinn = { version = "0.11", default-features = false, features = ["runtime-tokio", "rustls-ring"] }
rcgen = "0.13"
serde = { version = "1", features = ["derive"] }
serde_json = "1"
sodiumoxide = "0.2"
tokio = { version = "1", features = ["full"] }
tokio-util = { version = "0.7", features = ["codec"] }
