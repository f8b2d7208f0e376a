[package]
name = "walrus_cli"
version = "0.1.0"
edition = "2021"
publish = false

[dependencies]
anyhow = "1"
clap = { version = "4", features = ["derive"] }
color-eyre = "0.6"
colored = "2"
eyre = "0.6"
humantime = "2"
serde_json = { version = "1", features = ["preserve_order"] }
serde_with = { version = "3", features = ["base64"] }
tokio = { version = "1", features = ["macros", "rt-multi-thread"] }
tracing = "0.1"
tracing-subscriber = { version = "0.3", features = ["env-filter"] }
