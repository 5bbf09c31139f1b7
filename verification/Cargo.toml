[package]
name = "slack_coder"
version = "0.1.0"
edition = "2021"
publish = false

[dependencies]
dashmap = "*"
regex = "*"
uuid = { version = "*", features = ["v4"] }
serde = { version = "*", features = ["derive"] }
serde_json = "*"
thiserror = "*"
tokio = { version = "*", features = ["full"] }
futures = "*"
tracing = "*"
tracing-subscriber = { version = "*", features = ["env-filter"] }
dotenvy = "*"
slack-morphism = { version = "*", features = ["hyper"] }
rustls = "*"
