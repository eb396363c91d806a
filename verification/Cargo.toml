[package]
name = "hi_core"
version = "0.1.0"
edition = "2021"
publish = false

[dependencies]
serde = { version = "1", features = ["derive"] }
serde_json = "1"
toml = "0.8"
tokio = { version = "1", features = ["sync", "rt", "macros"] }
async-trait = "0.1"
rusqlite = { version = "0.31", features = ["bundled"] }
tracing = "0.1"
