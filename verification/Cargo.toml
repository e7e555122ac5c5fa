[package]
name = "rspc"
version = "0.1.0"
edition = "2021"
publish = false

[dependencies]
serde_json = "1"
serde = { version = "1", features = ["derive"] }
futures = "0.3"
futures-locks = "0.7"
pin-project = "1"
pin-project-lite = "0.2"
tokio = { version = "1", features = ["sync"] }
tracing = "0.1"
specta = "1"
