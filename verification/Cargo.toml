[package]
name = "opencode_engine"
version = "0.1.0"
edition = "2021"
publish = false

[dependencies]
serde_json = "1"
uuid = { version = "1", features = ["v4"] }
anyhow = "1"
async-trait = "0.1"
tokio = { version = "1", features = ["io-util", "macros", "process", "rt-multi-thread", "sync", "time"] }
tokio-util = "0.7"
rusqlite = { version = "0.32", features = ["bundled"] }
