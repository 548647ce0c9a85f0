[package]
name = "get_media_twitter"
version = "0.1.0"
edition = "2021"
publish = false

[dependencies]
base64 = "*"
envfile = "*"
reqwest = "*"
serde_json = "*"
tokio = { version = "*", features = ["macros", "rt-multi-thread"] }
urlencoding = "*"

[dev-dependencies]
regex = "*"
