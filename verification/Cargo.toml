[package]
name = "vps_telegram_bot"
version = "0.1.0"
edition = "2021"
publish = false
rust-version = "1.95"

[dependencies]
regex = "1"
chrono = "0.4"
serde = { version = "1", features = ["derive"] }
serde_json = "1"
once_cell = "1"
anyhow = "1"
thiserror = "1"
tokio = { version = "1", features = ["full"] }
tracing = "0.1"
tracing-subscriber = { version = "0.3", features = ["env-filter", "json"] }
dotenvy = "0.15"
log = "0.4"
pretty_env_logger = "0.5"
teloxide = { version = "0.13", features = ["macros"] }
dptree = "0.3"
reqwest = { version = "0.12", features = ["json"] }
google-youtube3 = "5"
hyper = { version = "0.14", features = ["client", "http1"] }
hyper-rustls = { version = "0.24", features = ["http1"] }
yup-oauth2 = "9"
takecell = "=0.1.1"

[dev-dependencies]
tempfile = "3"
