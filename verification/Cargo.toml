[package]
name = "chronos"
version = "0.1.0"
edition = "2021"
publish = false

[dependencies]
anyhow = "=1.0.104"
async-trait = "=0.1.92"
base64 = "=0.22.1"
chrono = { version = "=0.4.45", features = ["serde"] }
clap = { version = "=4.6.7", features = ["derive"] }
dirs = "=7.0.0"
image = { version = "=0.25.10", default-features = false, features = ["png"] }
reqwest = { version = "=0.12.28", default-features = false, features = ["json"] }
serde = { version = "=1.0.229", features = ["derive"] }
serde_json = "=1.0.154"
sqlx = { version = "=0.8.6", default-features = false, features = ["runtime-tokio", "sqlite"] }
tokio = { version = "=1.54.1", features = ["rt-multi-thread", "macros", "sync", "time", "signal"] }
tracing = "=0.1.44"
tracing-subscriber = "=0.3.23"
ulid = { version = "=1.2.1", features = ["serde"] }
xcap = "=0.9.8"
