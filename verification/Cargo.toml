[package]
name = "rain-status"
version = "0.1.0"
edition = "2021"
publish = false

[dependencies]
url = "2"
urlencoding = "2"
uuid = { version = "1", features = ["v4", "serde"] }
serde = { version = "1", features = ["derive"] }
serde_json = "1"
serde_repr = "0.1"
serde_with = "3"
tokio = { version = "1", features = ["full"] }
axum = "0.8"
reqwest = { version = "0.12", default-features = false, features = ["json", "rustls-tls"] }
zbus = { version = "5", default-features = false, features = ["tokio"] }
futures = "0.3"
xdg = "3"
