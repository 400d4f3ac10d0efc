[package]
name = "qrmi"
version = "0.1.0"
edition = "2021"
publish = false

[dependencies]
anyhow = "1"
async-trait = "0.1"
base64 = "0.22"
env_logger = "0.11"
http = "1"
log = "0.4"
reqwest = { version = "0.12", default-features = false, features = ["json"] }
reqwest-middleware = { version = "0.4", default-features = false, features = ["json"] }
reqwest-retry = "0.7"
serde = { version = "1", features = ["derive"] }
serde_json = "1"
thiserror = "2"
tokio = { version = "1", default-features = false, features = ["rt", "macros", "sync", "time"] }
uuid = { version = "1", features = ["v4"] }
