[package]
name = "with_baby_auth"
version = "0.1.0"
edition = "2021"
publish = false

[dependencies]
sha2 = "=0.10.9"
hex = "=0.4.3"
rand = "=0.8.8"
hmac = "=0.12.1"
jwt = "=0.16.0"
serde = { version = "1", features = ["derive"] }
mongodb = { version = "=2.8.2", features = ["tokio-sync"] }
actix-web = "4"
diesel = { version = "2", features = ["postgres", "r2d2"] }
dotenv = "0.15"
env_logger = "0.10"
log = "0.4"
