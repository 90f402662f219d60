[package]
name = "jwt_gate"
version = "0.1.0"
edition = "2021"
publish = false

[dependencies]
jsonwebtoken = "9"
serde_json = "1"
chrono = "0.4"
serde = { version = "1", features = ["derive"] }
axum = "*"
