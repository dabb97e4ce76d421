[package]
name = "resize_service"
version = "0.1.0"
edition = "2021"
publish = false

[dependencies]
image = { version = "0.25", default-features = false, features = ["png", "jpeg", "gif", "webp", "bmp", "ico", "pnm", "tga", "tiff"] }
actix-web = "4"
actix-multipart = "0.6"
bytes = "1"
futures-util = "0.3"
tempfile = "3"
tera = "1"
log = "0.4"
env_logger = "0.11"
