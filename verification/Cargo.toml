[package]
name = "ywt"
version = "0.1.0"
edition = "2021"
publish = false

[dependencies]
actix-cors = "=0.7.2"
actix-web = { version = "=4.18.1", default-features = false, features = ["macros"] }
anyhow = "=1.0.104"
argon2 = { version = "=0.5.3", features = ["std"] }
base64 = "=0.22.1"
chrono = "=0.4.45"
clap = { version = "=4.6.7", features = ["derive"] }
dotenvy = "=0.15.7"
env_logger = { version = "=0.11.11", default-features = false }
fast_chemail = "=0.9.6"
futures = "=0.3.34"
jsonwebtoken = { version = "=9.3.1", default-features = false }
lettre = "=0.11.23"
log = "=0.4.34"
mongodb = "=3.9.1"
rand = "=0.9.5"
serde = { version = "=1.0.229", features = ["derive"] }
serde_json = "=1.0.154"
