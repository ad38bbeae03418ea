[package]
name = "camera_bot"
version = "0.1.0"
edition = "2021"
publish = false

[dependencies]
chrono = { version = "=0.4.45", features = ["serde"] }
uuid = { version = "=1.29.0", features = ["v4"] }
xml-rs = "=0.8.29"
serde = { version = "=1.0.229", features = ["derive"] }
serde_json = "=1.0.154"
tokio = { version = "=1.54.1", features = ["full"] }
teloxide = { version = "=0.17.0", default-features = false, features = ["rustls", "ctrlc_handler"] }
takecell = "=0.1.1"
actix-web = { version = "=4.18.1", default-features = false, features = ["macros"] }
log = "=0.4.35"
pretty_env_logger = "=0.5.0"
dotenvy = "=0.15.7"
image = { version = "=0.25.10", default-features = false }
opencv = "=0.101.1"
