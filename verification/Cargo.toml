[package]
name = "restful_image"
version = "0.1.0"
edition = "2021"
publish = false

[dependencies]
actix-cors = "0.3"
actix-rt = "1"
actix-service = "1"
actix-web = "3"
chrono = "0.4"
diesel = { version = "1.4", features = ["postgres", "r2d2", "uuidv07", "chrono"] }
dotenv = "0.15"
env_logger = "0.7"
futures = "0.3"
jsonwebtoken = "7"
libreauth = "0.13"
log = "0.4"
serde = { version = "1", features = ["derive"] }
serde_json = { version = "1", features = ["preserve_order"] }
thiserror = "1"
uuid = { version = "0.8", features = ["serde", "v4"] }
validator = "0.10"
validator_derive = "0.10"
