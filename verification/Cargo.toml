[package]
name = "auth_core"
version = "0.1.0"
edition = "2021"
publish = false

[dependencies]
actix-rt = "2"
actix-web = { version = "4", default-features = false, features = ["macros", "cookies"] }
actix-web-grants = "3"
bcrypt = "0.15"
bson = "2"
chrono = { version = "0.4", features = ["serde"] }
derive_more = "0.99"
dotenv = "0.15"
jsonwebtoken = "9"
log = "0.4"
log4rs = "1"
mongodb = { version = "2", features = ["tokio-sync"] }
serde = { version = "1", features = ["derive"] }
serde_json = { version = "1", features = ["preserve_order"] }
