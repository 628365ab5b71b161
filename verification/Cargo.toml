[package]
name = "app_iced"
version = "0.1.0"
edition = "2021"
publish = false

[dependencies]
qrcodegen = "1"
tiny-skia = "0.11"
chrono = "0.4"
anyhow = "1"
