[package]
name = "token_auth"
version = "0.1.0"
edition = "2021"
publish = false

[dependencies]
jsonwebtoken = "7"
chrono = "0.4"
serde = { version = "1", features = ["derive"] }
serde_json = "1"
actix-web = "3"
actix-files = "0.5"
