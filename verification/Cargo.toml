[package]
name = "media_sync"
version = "0.1.0"
edition = "2021"
publish = false

[dependencies]
axum = { version = "=0.8.9", features = ["ws"] }
serde = { version = "=1.0.229", features = ["derive"] }
serde_json = "*"
tokio = { version = "=1.53.2", features = ["macros", "rt-multi-thread", "net", "sync"] }
tower-http = { version = "=0.7.1", features = ["fs"] }
