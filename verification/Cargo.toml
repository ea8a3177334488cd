[package]
name = "poeledger"
version = "0.1.0"
edition = "2021"
publish = false

[dependencies]
time = "=0.3.55"
tokio = { version = "=1.53.2", features = ["macros", "rt-multi-thread", "signal", "net"] }
axum = "=0.8.9"
axum-extra = { version = "=0.12.6", features = ["query"] }
tower-http = { version = "=0.6.11", features = ["cors", "timeout"] }
async-nats = "=0.50.0"
reqwest = { version = "=0.13.5", default-features = false, features = ["json", "form"] }
serde = { version = "=1.0.229", features = ["derive"] }
serde_json = "=1.0.151"
serde_repr = "=0.1.21"
clickhouse = { version = "=0.15.2", features = ["time"] }
futures = "=0.3.34"
anyhow = "=1.0.104"
