[package]
name = "cmdbot"
version = "0.1.0"
edition = "2021"
publish = false

[dependencies]
serde_json = "*"
anyhow = "*"
serde = { version = "*", features = ["derive"] }
toml = "*"
tracing = "*"
tokio = { version = "*", features = ["process", "time", "rt-multi-thread", "macros"] }
reqwest = { version = "*", default-features = false, features = ["json"] }
