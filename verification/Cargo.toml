[package]
name = "litehook"
version = "0.1.0"
edition = "2021"
publish = false

[dependencies]
anyhow = "1"
axum = "0.8"
dotenvy = "0.15"
envy = "0.4"
html-to-markdown-rs = "*"
rand = "0.9"
reqwest = { version = "0.12", default-features = false, features = ["json", "socks", "rustls-tls"] }
scraper = "*"
serde = { version = "1", features = ["derive"] }
sqlx = { version = "0.8", default-features = false, features = ["runtime-tokio", "sqlite", "json", "derive"] }
tokio = { version = "1", features = ["full"] }
tokio-util = "0.7"
tower-http = { version = "0.6", features = ["cors", "fs"] }
tracing = "0.1"
tracing-subscriber = { version = "0.3", features = ["chrono"] }
url = "2"
