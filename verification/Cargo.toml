[package]
name = "ggez"
version = "0.1.0"
edition = "2021"
publish = false

[dependencies]
zip = { version = "=0.6.6", default-features = false, features = ["deflate"] }
directories = "=5.0.1"
toml = "=0.5.11"
serde = { version = "=1.0.229", features = ["derive"] }
