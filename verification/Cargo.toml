[package]
name = "kaspa_monitor"
version = "0.1.0"
edition = "2021"
publish = false

[dependencies]
ahash = "=0.8.12"
xxhash-rust = { version = "=0.8.19", features = ["xxh3"] }
arc-swap = "=1.9.3"
async-trait = "=0.1.92"
clap = { version = "=4.6.7", features = ["derive", "cargo"] }
futures = "=0.3.34"
serde = { version = "=1.0.229", features = ["derive"] }
thiserror = "=2.0.21"
tokio = { version = "=1.54.1", features = ["rt-multi-thread", "macros", "sync", "time"] }
workflow-core = "=0.18.0"
workflow-log = "=0.18.0"
kaspa-consensus-core = "=2.1.0"
kaspa-utils = "=2.1.0"
borsh = { version = "=1.8.1", features = ["derive"] }
serde_json = "=1.0.154"
workflow-serializer = "=0.18.0"
