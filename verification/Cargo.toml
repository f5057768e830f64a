[package]
name = "multiplex"
version = "0.1.0"
edition = "2021"
publish = false

[dependencies]
unicode-segmentation = "*"
urlencoding = "*"
mime2ext = "*"
anyhow = "*"
serde = { version = "*", features = ["derive"] }
serde_json = "*"
chrono = "*"
