[package]
name = "skr_api"
version = "0.1.0"
edition = "2021"
publish = false

[dependencies]
sha2 = "0.10"
rsa = "0.9"
aes-gcm = "0.10"
rand = "0.8"
tokio = { version = "1", default-features = false, features = ["macros", "rt-multi-thread", "net", "sync", "io-util", "fs"] }
axum = "0.6"
reqwest = { version = "0.11", default-features = false, features = ["json"] }
clap = { version = "4", features = ["derive"] }
serde = { version = "1", features = ["derive"] }
serde_json = "1"
anyhow = "1"
tracing = "0.1"
tracing-subscriber = "0.3"
base64 = "0.21"
