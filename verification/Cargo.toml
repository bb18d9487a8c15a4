[package]
name = "pxcmprs_core"
version = "0.1.0"
edition = "2021"
publish = false

[dependencies]
gif = "=0.11.4"
image = "=0.23.14"
mime = "=0.3.17"
serde = { version = "=1.0.229", features = ["derive"] }
webp = { version = "=0.1.3", default-features = false }
