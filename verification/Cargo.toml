[package]
name = "img2pdf"
version = "0.1.0"
edition = "2021"
publish = false

[dependencies]
lopdf = "*"
oxipng = { version = "*", default-features = false }
image = { version = "*", default-features = false, features = ["png", "jpeg", "webp", "bmp", "gif", "tiff"] }
serde = { version = "1", features = ["derive"] }
thiserror = "*"
