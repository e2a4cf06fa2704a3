[package]
name = "schedule"
version = "0.1.0"
edition = "2021"
publish = false

[dependencies]
serde = { version = "=1.0.229", features = ["derive"] }
serde_json = "=1.0.151"
scraper = "=0.27.0"
chrono = "=0.4.45"
chrono-tz = "=0.10.4"
jsonwebtoken = { version = "=11.1.0", features = ["rust_crypto"] }
reqwest = { version = "=0.13.5", default-features = false, features = ["cookies", "form", "json"] }
actix-web = "=4.15.0"
actix-cors = "=0.7.2"
actix-web-httpauth = "=0.8.3"
dotenv = "=0.15.0"
