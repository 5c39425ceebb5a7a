[package]
name = "cfbd"
version = "0.1.0"
edition = "2021"
publish = false

[dependencies]
curl = "*"
dotenv = "*"
serde = { version = "*", features = ["derive"] }
