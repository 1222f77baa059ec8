[package]
name = "order_store"
version = "0.1.0"
edition = "2021"
publish = false

[dependencies]
lru = "0.12"
axum = "0.7"
axum-server = "0.7"
clap = { version = "4", features = ["derive", "env"] }
dotenv = "0.15"
log = "0.4"
log4rs = "1"
serde = { version = "1", features = ["derive"] }
serde_json = "1"
tokio = { version = "1", features = ["full"] }
tokio-postgres = "0.7"
