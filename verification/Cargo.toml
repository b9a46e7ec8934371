[package]
name = "rusty_dungeons_and_dragons"
version = "0.1.0"
edition = "2021"
publish = false

[dependencies]
askama = "0.12"
async-openai = "0.18"
axum = { version = "0.6", features = ["ws", "headers"] }
dotenv = "0.15"
eyre = "0.6"
futures-util = "0.3"
headers = "0.3"
serde = { version = "1", features = ["derive"] }
serde_json = "1"
tokio = { version = "1", features = ["full"] }
tower-http = { version = "0.4", features = ["fs", "trace"] }
tracing = "0.1"
tracing-subscriber = { version = "0.3", features = ["env-filter"] }
