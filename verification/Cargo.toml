[package]
name = "novel_reader"
version = "0.1.0"
edition = "2021"
publish = false

[dependencies]
charset-normalizer-rs = "=1.0.6"
encoding = "=0.2.33"
epub = "=2.1.5"
scraper = "=0.29.0"
serde = { version = "=1.0.229", features = ["derive"] }
serde_json = "=1.0.154"
log = "=0.4.34"
chrono = "=0.4.45"
tokio = { version = "=1.54.1", features = ["time"] }
sqlx = { version = "=0.8.6", default-features = false, features = ["sqlite", "runtime-tokio", "macros", "migrate"] }
font-kit = "=0.14.3"

[dev-dependencies]
regex = "=1.13.1"
