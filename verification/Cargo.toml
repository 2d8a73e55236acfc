[package]
name = "sheeko"
version = "0.1.0"
edition = "2021"
publish = false

[dependencies]
hecs = "=0.11.2"
bytes = "=1.12.1"
thiserror = "=2.0.21"
serde = { version = "=1.0.229", features = ["derive"] }
serde_json = "=1.0.154"
tokio = { version = "=1.54.1", features = ["full"] }
axum = { version = "=0.8.9", features = ["ws"] }
tracing = "=0.1.44"
tracing-subscriber = { version = "=0.3.23", features = ["env-filter"] }
anyhow = "=1.0.104"
futures-util = { version = "=0.3.34", features = ["sink"] }
tokio-tungstenite = "=0.29.0"
cpal = "=0.18.2"
audiopus = "=0.2.0"
