[package]
name = "clutch_guardians"
version = "0.1.0"
edition = "2021"
publish = false

[dependencies]
email_address = "0.2"
hex = "0.4"
rand = "0.8"
serde = { version = "1", features = ["derive"] }
serde_json = "1"
jsonwebtoken = "9"
