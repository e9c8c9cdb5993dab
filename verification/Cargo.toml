[package]
name = "llm_runner_router"
version = "0.1.0"
edition = "2021"
publish = false

[dependencies]
fastrand = "2"
url = "2"
uuid = { version = "1", features = ["v4"] }
serde = { version = "1", features = ["derive"] }
serde_json = "1"
reqwest = { version = "0.12", default-features = false, features = ["json", "stream"] }
tokio = { version = "1", features = ["rt", "macros", "sync", "time"] }
futures = "0.3"
toml = "0.8"
