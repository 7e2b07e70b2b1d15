[package]
name = "user_api"
version = "0.1.0"
edition = "2021"
publish = false

[dependencies]
jsonwebtoken = "=9.3.1"
serde_json = "=1.0.151"
serde = { version = "=1.0.229", features = ["derive"] }
actix-web = { version = "=4.15.0", default-features = false, features = ["macros"] }
