[package]
name = "apx"
version = "0.1.0"
edition = "2021"
publish = false

[dependencies]
url = "2"
chrono = { version = "0.4", default-features = false, features = ["std", "clock"] }
http = "1"
form_urlencoded = "1"
serde = { version = "1", features = ["derive"] }
serde_json = "1"
thiserror = "2"
tokio = { version = "1", features = ["full"] }
reqwest = { version = "0.12", default-features = false, features = ["json", "rustls-tls"] }
sqlx = { version = "0.8", default-features = false, features = ["sqlite", "runtime-tokio"] }
dirs = "5"
tracing = "0.1"
futures-util = { version = "0.3", features = ["sink"] }
tokio-tungstenite = "0.26"

[dev-dependencies]
