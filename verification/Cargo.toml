[package]
name = "dface"
version = "0.1.0"
edition = "2021"
publish = false

[dependencies]
ffuzzy = "=0.3.16"
image = { version = "=0.25.10", default-features = false, features = ["png", "jpeg", "gif", "bmp", "webp", "tiff", "ico"] }
image_hasher = "=3.1.1"
chrono = "=0.4.45"
rusqlite = "=0.41.1"
thirtyfour = "=0.38.1"
tokio = { version = "=1.54.1", features = ["full"] }
clap = "=4.6.7"
