[package]
name = "ratelimit_reporter"
version = "0.1.0"
edition = "2021"
publish = false

[dependencies]
serde_json = "*"
serde = { version = "*", features = ["derive"] }
axum = "*"
tokio = { version = "*", features = ["macros", "rt-multi-thread", "net", "time"] }
reqwest = { version = "*", default-features = false, features = ["json"] }
dotenvy = "*"
log = "*"
env_logger = "*"
