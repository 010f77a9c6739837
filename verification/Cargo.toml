[package]
name = "video_search"
version = "0.1.0"
edition = "2021"
publish = false

[dependencies]
base64 = "*"
actix-web = { version = "*", default-features = false, features = ["macros"] }
reqwest = { version = "*", default-features = false, features = ["json"] }
serde = { version = "*", features = ["derive"] }
serde_json = "*"
futures = "*"
futures-util = "*"
anyhow = "*"
thiserror = "*"
dotenvy = "*"
listenfd = "*"
log = "*"
tracing = "*"
tracing-subscriber = "*"
