[package]
name = "barter-data"
version = "0.1.0"
edition = "2021"
publish = false

[dependencies]
barter-integration = "=0.7.4"
barter-macro = "*"
chrono = { version = "=0.4.45", features = ["serde"] }
crc32fast = "=1.5.4"
futures = "=0.3.34"
rand = "=0.8.8"
reqwest = { version = "=0.12.28", features = ["json"] }
serde = { version = "=1.0.229", features = ["derive"] }
serde_json = "=1.0.154"
thiserror = "=1.0.69"
tokio = { version = "=1.54.1", features = ["net", "sync", "macros", "rt-multi-thread", "time"] }
tokio-stream = "0.1"
tracing = "=0.1.44"
url = "=2.5.8"
