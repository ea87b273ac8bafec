[package]
name = "ocr_core"
version = "0.1.0"
edition = "2021"
publish = false

[dependencies]
tokio = { version = "*", default-features = false, features = ["rt-multi-thread", "sync", "time", "macros"] }
eframe = { version = "*", default-features = false, features = ["glow", "x11", "default_fonts"] }
image = { version = "*", default-features = false, features = ["png", "jpeg", "bmp", "tiff", "webp", "gif"] }
log = "*"
env_logger = "*"
