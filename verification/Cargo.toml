[package]
name = "sbv2_core"
version = "0.2.0"
edition = "2021"
publish = false

[dependencies]
anyhow = "1"
axum = "0.8"
dotenvy = "0.15"
env_logger = "0.11"
hound = "3.5"
log = "0.4"
ndarray = "0.16"
serde = { version = "1", features = ["derive"] }
serde_json = "1"
tokenizers = { version = "0.21", default-features = false, features = ["onig"] }
tokio = { version = "1", features = ["fs", "macros", "net", "rt-multi-thread", "sync"] }
