[package]
name = "firmware"
version = "0.1.0"
edition = "2021"
publish = false

[dependencies]
rppal = { version = "=0.22.1", features = ["embedded-hal"] }
svg2polylines = "=0.9.0"
embedded-hal = "=1.0.0"
