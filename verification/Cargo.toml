[package]
name = "muradian"
version = "0.1.0"
edition = "2021"
publish = false

[dependencies]
opener = "*"
tauri = { version = "*", default-features = false }
