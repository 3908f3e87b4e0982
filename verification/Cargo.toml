[package]
name = "editor_server"
version = "0.1.0"
edition = "2021"
publish = false

[dependencies]
actix = "=0.13.5"
actix-web = "=4.15.0"
actix-web-actors = "=4.3.1"
actix-http = "=3.18.12"
actix-session = { version = "=0.11.0", features = ["cookie-session"] }
actix-cors = "=0.7.2"
env_logger = "=0.11.11"
log = "=0.4.34"
postgres = "=0.19.14"
serde = { version = "=1.0.229", features = ["derive"] }
serde_json = "=1.0.151"
futures = "=0.3.34"
