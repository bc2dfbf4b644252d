[package]
name = "sticker_packs"
version = "0.1.0"
edition = "2021"
publish = false

[dependencies]
anyhow = "1"
clokwerk = "0.4"
env_logger = "*"
futures-util = "0.3"
git2 = "*"
gotham = "0.7"
indexmap = { version = "*", features = ["serde"] }
log = "0.4"
mime_guess = "2"
once_cell = "1"
rust-s3 = "0.32"
serde = { version = "1", features = ["derive"] }
serde_json = "1"
tempfile = "3"
