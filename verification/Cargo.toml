[package]
name = "actix_request_reply_cache"
version = "0.1.0"
edition = "2021"
publish = false

[dependencies]
actix-web = { version = "4", default-features = false }
futures = "0.3"
hex = "0.4"
log = "0.4"
pin-project-lite = "0.2"
redis = { version = "0.29", features = ["aio", "tokio-comp"] }
rmp-serde = "1"
serde = { version = "1", features = ["derive"] }
serde_json = "1"
sha2 = "0.10"
