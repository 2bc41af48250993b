[package]
name = "mr_tagger"
version = "0.1.0"
edition = "2021"
publish = false

[dependencies]
base64 = "0.13"
id3 = "1"
lofty = "0.12"
mp4ameta = "0.11"
serde = { version = "1", features = ["derive"] }
serde_json = "1"
