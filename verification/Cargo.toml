[package]
name = "macos_window"
version = "0.1.0"
edition = "2021"
publish = false

[dependencies]
anyhow = "=1.0.104"
core-foundation = "=0.10.1"
core-graphics = { version = "=0.24.0", default-features = false }
objc = "=0.2.7"
parking_lot = "=0.12.5"
