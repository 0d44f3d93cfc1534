[package]
name = "trading_simulator"
version = "0.1.0"
edition = "2021"
publish = false

[dependencies]
actix-web = { version = "=4.18.1", default-features = false, features = ["macros"] }
bcrypt = "=0.15.1"
bson = { version = "=2.15.0", features = ["chrono-0_4"] }
chrono = { version = "=0.4.45", features = ["serde"] }
env_logger = "=0.11.11"
futures = "=0.3.34"
log = "=0.4.34"
mongodb = "=2.8.2"
sentry = { version = "=0.34.0", default-features = false }
sentry-actix = { version = "=0.34.0", default-features = false }
serde = { version = "=1.0.229", features = ["derive"] }
serde_json = "=1.0.154"
