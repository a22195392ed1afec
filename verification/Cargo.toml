[package]
name = "saad-agent"
version = "0.1.0"
edition = "2021"
publish = false

[dependencies]
anyhow = "=1.0.104"
chrono = "=0.4.45"
clap = { version = "=4.6.7", features = ["derive"] }
console = "=0.16.6"
dialoguer = "=0.12.0"
dotenvy = "=0.15.7"
futures-util = "=0.3.34"
indicatif = "=0.18.6"
rig-core = "=0.38.2"
serde = { version = "=1.0.229", features = ["derive"] }
serde_json = "=1.0.154"
sqlx = { version = "=0.9.0", default-features = false, features = ["sqlite", "runtime-tokio"] }
thiserror = "=2.0.21"
tokio = { version = "=1.54.1", features = ["full"] }
tracing = "=0.1.44"
tracing-subscriber = "=0.3.23"
