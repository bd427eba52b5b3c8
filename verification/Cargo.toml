[package]
name = "layer_compositor"
version = "0.1.0"
edition = "2021"
publish = false

[dependencies]
imageproc = "*"
image = { version = "0.25", default-features = false, features = ["png", "jpeg", "gif", "bmp", "webp", "tiff"] }
resvg = "*"
axum = "*"
axum_typed_multipart = "*"
tokio = { version = "*", features = ["full"] }
serde = { version = "*", features = ["derive"] }
