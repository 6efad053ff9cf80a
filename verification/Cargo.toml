[package]
name = "symposium_cargo"
version = "0.1.0"
edition = "2021"
publish = false

[dependencies]
anyhow = "1"
indoc = "2"
sacp = "*"
sacp-tokio = "*"
schemars = "*"
serde = { version = "1", features = ["derive"] }
serde_json = "1"
tokio = { version = "1", features = ["full"] }
tracing = "0.1"
tracing-subscriber = { version = "0.3", features = ["env-filter"] }
