[package]
name = "dal"
version = "0.1.0"
edition = "2021"
publish = false

[dependencies]
rand = "=0.9.5"
tokio = { version = "1", features = ["full"] }
serde = { version = "1", features = ["derive"] }
serde_json = "1"
toml = "0.8"
url = { version = "=2.5.8", features = ["serde"] }
uuid = { version = "1", features = ["serde", "v4"] }
chrono = { version = "0.4", features = ["serde"] }
http = "1"
reqwest = { version = "0.12", default-features = false, features = ["json"] }
tokio-tungstenite = "=0.30.0"
futures = "0.3"
sqlx = { version = "0.8", default-features = false, features = ["runtime-tokio", "postgres"] }
twilight-http = "=0.17.1"
twilight-model = "=0.17.1"
thiserror = "2"
tracing = "0.1"
tracing-subscriber = "0.3"
axum = "0.8"
bytes = "1"
