[package]
name = "blog"
version = "0.1.0"
edition = "2021"
publish = false

[dependencies]
chrono = { version = "0.4", features = ["serde"] }
serde = { version = "1", features = ["derive"] }
serde_json = "1"
axum = "0.7"
askama = "0.12"
tokio = { version = "1", features = ["full"] }
tower-http = { version = "0.5", features = ["compression-gzip", "fs"] }
reqwest = { version = "0.12", default-features = false, features = ["rustls-tls"] }
fred = "10"
dotenvy = "0.15"
