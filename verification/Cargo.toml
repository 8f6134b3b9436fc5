[package]
name = "rustwave"
version = "0.1.0"
edition = "2021"
publish = false

[dependencies]
rodio = "*"
souvlaki = "*"
oauth2 = "*"
reqwest = { version = "*", default-features = false }
url = "*"
directories = "*"
serde = { version = "*", features = ["derive"] }
serde_json = "*"
tokio = { version = "*", features = ["rt-multi-thread", "macros"] }
