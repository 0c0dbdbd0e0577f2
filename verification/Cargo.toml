[package]
name = "rocketsocket"
version = "0.1.0"
edition = "2021"
publish = false

[dependencies]
compact_str = { version = "0.9", features = ["serde"] }
dashmap = "6"
fastrand = "2"
futures-util = "0.3"
parking_lot = "0.12"
proc-macro2 = "1"
quote = "1"
serde = { version = "1", features = ["derive"] }
serde_json = "1"
syn = { version = "2", features = ["full"] }
thiserror = "2"
time = { version = "0.3", features = ["formatting", "parsing"] }
tokio = { version = "1", features = ["macros", "net", "rt-multi-thread", "sync", "time"] }
tokio-tungstenite = "*"
tracing = "0.1"
