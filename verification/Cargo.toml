[package]
name = "rabbitmq_consumer"
version = "0.1.0"
edition = "2021"
publish = false

[dependencies]
serde = { version = "=1.0.229", features = ["derive"] }
serde_json = "=1.0.154"
chrono = { version = "=0.4.45", features = ["serde"] }
uuid = { version = "=1.29.0", features = ["v4"] }
reqwest = { version = "=0.13.5", default-features = false, features = ["json"] }
lapin = { version = "=2.5.5", default-features = false }
tokio = { version = "=1.54.1", features = ["full"] }
futures = "=0.3.34"
tracing = "=0.1.44"
tracing-subscriber = { version = "=0.3.23", features = ["json", "env-filter"] }
anyhow = "=1.0.104"
async-trait = "=0.1.92"
config = { version = "=0.14.1", default-features = false, features = ["yaml"] }
