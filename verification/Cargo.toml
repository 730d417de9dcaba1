[package]
name = "matcha_chat"
version = "0.1.0"
edition = "2021"
publish = false

[dependencies]
actix-cors = "*"
actix-web = "4"
awmp = "*"
chrono = "0.4"
chrono-humanize = "*"
dotenv = "*"
serde = { version = "1", features = ["derive"] }
serde_json = "1"
