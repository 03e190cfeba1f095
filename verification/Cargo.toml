[package]
name = "punchcards"
version = "0.1.0"
edition = "2021"
publish = false

[dependencies]
anyhow = "=1.0.104"
async-trait = "=0.1.92"
chrono = { version = "=0.4.45", features = ["serde"] }
console = "=0.15.11"
dialoguer = "=0.10.4"
futures = "=0.3.34"
hyper = "=0.14.27"
rocket = { version = "=0.5.1", features = ["json"] }
serde = { version = "=1.0.229", features = ["derive"] }
shuttle-service = { version = "=0.8.0", features = ["web-rocket"] }
shuttle-shared-db = { version = "=0.8.0", features = ["postgres"] }
sqlx = { version = "=0.6.3", features = ["runtime-tokio-native-tls", "postgres", "chrono"] }
tokio-stream = "=0.1.14"
tracing = "=0.1.44"
ureq = { version = "=2.12.1", features = ["json"] }
