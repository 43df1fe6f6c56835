[package]
name = "obsidian_ai_agent"
version = "0.1.0"
edition = "2021"
publish = false
rust-version = "1.95"

[dependencies]
async-trait = "0.1"
axum = { version = "0.7", features = ["ws", "multipart"] }
base64 = "0.22"
chrono = "0.4"
dotenvy = "0.15"
dptree = "0.3"
futures = "0.3"
image = { version = "0.25", default-features = false, features = ["jpeg", "png"] }
kamadak-exif = "0.5"
linkify = "0.10"
regex = "1"
reqwest = { version = "0.12", default-features = false, features = ["json", "multipart", "rustls-tls"] }
scraper = "0.20"
serde = { version = "1", features = ["derive"] }
serde_json = "1"
serde_yml = "0.0.12"
takecell = "=0.1.1"
teloxide = { version = "0.13", default-features = false, features = ["macros", "rustls"] }
thiserror = "1"
tokio = { version = "1", features = ["full"] }
tracing = "0.1"
tracing-subscriber = { version = "0.3", features = ["env-filter"] }
url = "2"
uuid = { version = "1", features = ["v4"] }
yup-oauth2 = "9"
