[package]
name = "secret_sync"
version = "0.1.0"
edition = "2021"
publish = false

[dependencies]
fast-glob = "*"
aws-config = "*"
aws-sdk-secretsmanager = "*"
clap = { version = "*", features = ["derive"] }
color-eyre = "*"
eyre = "*"
indexmap = { version = "*", features = ["serde"] }
serde = { version = "*", features = ["derive"] }
serde_json = "*"
tokio = { version = "*", features = ["rt-multi-thread", "macros", "fs"] }
toml = "*"
tracing = "*"
tracing-indicatif = "*"
tracing-subscriber = { version = "*", features = ["env-filter"] }
