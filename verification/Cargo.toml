[package]
name = "ollama_bridge"
version = "0.1.0"
edition = "2021"
publish = false

[dependencies]
serde_json = "*"
serde = { version = "*", features = ["derive"] }
axum = "*"
tokio = { version = "*", features = ["full"] }
tokio-stream = "*"
tower-http = { version = "*", features = ["cors"] }
reqwest = { version = "*", default-features = false, features = ["json", "stream"] }
futures-util = "*"
