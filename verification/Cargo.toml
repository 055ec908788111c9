[package]
name = "iflow_workspace"
version = "0.1.0"
edition = "2021"
publish = false

[dependencies]
chrono = { version = "0.4", default-features = false, features = ["clock"] }
futures = { version = "0.3", default-features = false, features = ["std"] }
serde = { version = "1", features = ["derive"] }
serde_json = "1"
tauri = { version = "2", default-features = false }
tokio = { version = "1", features = ["rt", "macros", "sync", "time", "net", "fs", "process"] }
tokio-tungstenite = { version = "0.26", default-features = false, features = ["connect"] }
url = "2"
