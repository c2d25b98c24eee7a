[package]
name = "auto_update"
version = "0.1.0"
edition = "2021"
publish = false

[dependencies]
rand = "=0.8.8"
serde_json = "=1.0.154"
serde = { version = "1", features = ["derive"] }
log = "0.4"
env_logger = { version = "0.10", default-features = false }
actix = "0.13"
actix-codec = "0.5"
actix-web = { version = "4", default-features = false, features = ["macros", "ws"] }
actix-web-actors = "4"
awc = { version = "3", default-features = false }
futures = "0.3"
async-std = "1"
