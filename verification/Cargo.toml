[package]
name = "chat_relay"
version = "0.1.0"
edition = "2021"
publish = false

[dependencies]
anyhow = "1"
async-trait = "0.1"
dashmap = "5"
futures = "0.3"
redis = { version = "0.22", features = ["tokio-comp"] }
reqwest = { version = "0.11", default-features = false }
serde = { version = "1", features = ["derive"] }
serde_json = "1"
stream-cancel = "0.8"
thiserror = "1"
tokio = { version = "1", features = ["macros", "rt-multi-thread", "time"] }
warp = "0.3"
