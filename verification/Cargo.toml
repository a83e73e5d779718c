[package]
name = "chronolens"
version = "0.1.0"
edition = "2021"
publish = false

[dependencies]
base64 = "0.22"
bcrypt = "0.15"
image = { version = "0.25", default-features = false, features = ["jpeg", "png"] }
jsonwebtoken = { version = "9", default-features = false }
kamadak-exif = "0.5"
serde_json = { version = "1", features = ["preserve_order"] }
uuid = { version = "1", features = ["v4"] }
async-nats = "0.35"
async-trait = "0.1"
axum = { version = "0.7", features = ["multipart"] }
chrono = "0.4"
dotenvy = "0.15"
envy = "0.4"
futures-util = "0.3"
http = "1"
libheif-rs = "1"
log = "0.4"
rust-s3 = { version = "0.35", default-features = false, features = ["tokio-rustls-tls"] }
sea-orm = { version = "1", default-features = false, features = ["sqlx-postgres", "runtime-tokio-rustls", "macros"] }
sea-orm-migration = { version = "1", default-features = false, features = ["sqlx-postgres", "runtime-tokio-rustls"] }
serde = { version = "1", features = ["derive"] }
strum_macros = "0.26"
tokio = { version = "1", features = ["rt-multi-thread", "macros", "net"] }
