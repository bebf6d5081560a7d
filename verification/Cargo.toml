[package]
name = "unifi-scoped-proxy"
version = "0.1.0"
edition = "2021"
publish = false

[dependencies]
axum = "0.7"
dotenvy = "0.15"
reqwest = { version = "0.12", default-features = false, features = ["rustls-tls"] }
tokio = { version = "1", features = ["full"] }
tower-http = { version = "0.5", features = ["trace", "limit"] }
tracing = "0.1"
tracing-subscriber = { version = "0.3", features = ["env-filter"] }
