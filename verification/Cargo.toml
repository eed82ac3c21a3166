[package]
name = "postman_clone"
version = "0.1.0"
edition = "2021"
publish = false

[dependencies]
iced = { version = "0.13", default-features = false, features = ["tokio", "tiny-skia"] }
reqwest = "0.12"
