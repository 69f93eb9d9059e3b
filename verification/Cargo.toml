[package]
name = "simple_api_demo"
version = "0.1.0"
edition = "2021"
publish = false

[dependencies]
actix-cors = "0.7"
actix-web = { version = "4", default-features = false, features = ["macros"] }
chrono = "0.4"
env_logger = "0.11"
futures = "0.3"
log = "0.4"
serde_json = "1"
thiserror = "1"
