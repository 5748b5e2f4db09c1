[package]
name = "kevgir"
version = "0.1.0"
edition = "2021"
publish = false

[dependencies]
aes = "=0.7.5"
block-modes = "=0.8.1"
base64 = "0.22"
serde = { version = "1", features = ["derive"] }
serde_json = "1"
anyhow = "1"
log = "0.4"
fern = "0.6"
chrono = "0.4"
jsonwebtoken = "9"
urlencoding = "2"
reqwest = { version = "0.12", default-features = false, features = ["json"] }
tokio = { version = "1", features = ["rt-multi-thread", "macros", "fs", "io-util", "sync", "time"] }
futures = "0.3"
deadpool-postgres = "0.14"
tokio-postgres = "0.7"
