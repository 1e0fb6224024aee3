[package]
name = "rspc"
version = "0.1.0"
edition = "2021"
publish = false

[dependencies]
anyhow = "1"
cookie = "0.18"
nanoid = "0.4"
serde = { version = "1", features = ["derive"] }
serde_json = "1"
thiserror = "1"
tokio = { version = "1", features = ["sync", "rt", "macros"] }
futures = "0.3"
