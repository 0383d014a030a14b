[package]
name = "embedding_service"
version = "0.1.0"
edition = "2021"
publish = false

[dependencies]
subtle = "*"
axum = "*"
tokio = { version = "*", features = ["rt-multi-thread", "net", "signal", "macros"] }
tower-http = { version = "*", features = ["cors", "trace", "limit"] }
anyhow = "*"
clap = { version = "*", features = ["derive"] }
serde = { version = "*", features = ["derive"] }
serde_json = "*"
tracing = "*"
tracing-subscriber = { version = "*", features = ["env-filter"] }
model2vec-rs = "*"
