[package]
name = "pcosew"
version = "0.1.0"
edition = "2021"
publish = false

[dependencies]
jsonwebtoken = "9"
bcrypt = "*"
bson = "2"
chrono = "0.4"
sanitize-filename = "*"
serde_json = "1"
serde = { version = "1", features = ["derive"] }
mongodb = "2"
actix-web = "4"
actix-cors = "*"
actix-multipart = "*"
futures = "0.3"
dotenvy = "*"
env_logger = "*"
