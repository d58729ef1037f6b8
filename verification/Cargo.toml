[package]
name = "rabia"
version = "0.1.0"
edition = "2021"
publish = false

[dependencies]
uuid = { version = "1", features = ["v4", "serde"] }
crc32fast = "1"
serde = { version = "1", features = ["derive"] }
serde_json = "1"
bincode = "1"
bytes = { version = "1", features = ["serde"] }
tokio = { version = "1", features = ["full"] }
async-trait = "0.1"
thiserror = "1"
anyhow = "1"
tracing = "0.1"
rand = "0.8"
dashmap = "5"
parking_lot = "0.12"
futures-util = "0.3"

[dev-dependencies]
tempfile = "3"
