[package]
name = "infra_core"
version = "0.1.0"
edition = "2021"
publish = false

[dependencies]
anyhow = "=1.0.104"
async-nats = { version = "=0.50.0", default-features = false, features = ["kv"] }
chrono = { version = "=0.4.45", features = ["serde"] }
datafusion = { version = "=55.2.0", default-features = false }
etcd-client = "=0.21.1"
reqwest = { version = "=0.13.5", default-features = false }
sea-orm = { version = "=2.0.4", default-features = false }
serde = { version = "=1.0.229", features = ["derive"] }
serde_json = { version = "=1.0.154", features = ["preserve_order"] }
sqlx = { version = "=0.9.0", default-features = false }
thiserror = "=2.0.21"
utoipa = "=6.0.0"
