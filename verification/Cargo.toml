[package]
name = "ruddy"
version = "0.1.0"
edition = "2021"
publish = false

[dependencies]
uuid = { version = "=0.8.2", features = ["v4"] }
regex = "=1.13.1"
serde = { version = "=1.0.229", features = ["derive"] }
serde_json = "=1.0.154"
actix = "=0.8.3"
actix-web = "=1.0.9"
actix-files = "=0.1.7"
actix-web-actors = "=1.0.4"
futures = "=0.1.31"
reqwest = { version = "=0.9.24", default-features = false }
dotenv = "=0.15.0"
chrono = "=0.4.19"
