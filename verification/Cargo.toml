[package]
name = "upix"
version = "0.1.0"
edition = "2021"
publish = false

[dependencies]
console_error_panic_hook = "0.1"
futures = "0.3"
hex = "0.4"
image = { version = "0.25", default-features = false, features = ["bmp", "gif", "png", "webp"] }
serde = { version = "1", features = ["derive"] }
serde_json = "1"
sha2 = "0.10"
worker = "*"
