[package]
name = "user_service"
version = "0.1.0"
edition = "2021"
publish = false

[dependencies]
actix-web = "*"
deadpool-postgres = "*"
tokio-postgres = "*"
serde_json = "*"
