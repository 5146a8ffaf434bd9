[package]
name = "video_transcriber"
version = "0.1.0"
edition = "2021"
publish = false

[dependencies]
anyhow = "=1.0.104"
argon2 = "=0.5.3"
axum = { version = "=0.8.9", features = ["multipart"] }
axum-extra = { version = "=0.12.6", features = ["with-rejection"] }
axum-valid = "=0.25.0"
dotenv = "=0.15.0"
dotenvy = "=0.15.7"
ez-ffmpeg = "=0.19.3"
futures-util = "=0.3.34"
hound = "=3.5.1"
log = "=0.4.35"
reqwest = { version = "=0.12.28", default-features = false, features = ["stream"] }
serde = { version = "=1.0.229", features = ["derive"] }
serde_json = "=1.0.154"
sqlx = { version = "=0.8.6", default-features = false, features = ["runtime-tokio", "sqlite", "postgres", "uuid", "migrate"] }
thiserror = "=2.0.21"
tokio = { version = "=1.54.1", features = ["full"] }
url = "=2.5.8"
urlencoding = "=2.1.3"
uuid = { version = "=1.29.0", features = ["v4", "serde"] }
validator = { version = "=0.20.0", features = ["derive"] }
whisper-rs = "=0.16.0"
