[package]
name = "devstack_api"
version = "1.0.0"
edition = "2021"
publish = false

[dependencies]
chrono = "0.4"
actix-web = { version = "4", default-features = false, features = ["macros"] }
actix-cors = "*"
reqwest = { version = "*", default-features = false }
env_logger = "*"
log = "0.4"

[dev-dependencies]
serde_json = "1"
