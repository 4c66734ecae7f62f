[package]
name = "calibre_bot"
version = "0.1.0"
edition = "2021"
publish = false

[dependencies]
url = "2"
url-escape = "*"
scraper = "0.27"
bollard = "0.14"
serenity = "0.11"
tokio = { version = "1", features = ["macros", "rt-multi-thread", "sync", "time"] }
reqwest = { version = "0.11", default-features = false, features = ["rustls-tls", "json"] }
serde = { version = "1", features = ["derive"] }
serde_json = "1"
dotenv = "0.15"
log = "0.4"
pretty_env_logger = "0.5"
