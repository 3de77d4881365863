[package]
name = "codex_mini_demo"
version = "0.1.0"
edition = "2021"
publish = false

[dependencies]
serde_json = "=1.0.154"
serde = { version = "=1.0.229", features = ["derive"] }
tokio = { version = "=1.54.1", features = ["full"] }
anyhow = "=1.0.104"
async-trait = "=0.1.92"
futures-util = "=0.3.34"
futures-core = "=0.3.34"
async-stream = "=0.3.6"
reqwest = { version = "=0.12.28", default-features = false, features = ["json", "stream", "rustls-tls"] }
ratatui = "=0.30.2"
tui-markdown = "=0.3.13"
uuid = { version = "=1.29.1", features = ["v4"] }
dashmap = "=6.2.1"
derive_builder = "=0.20.2"
