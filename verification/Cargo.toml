[package]
name = "imgforge"
version = "0.1.0"
edition = "2021"
publish = false

[dependencies]
axum = "*"
axum-extra = "*"
base64 = "*"
bytes = "*"
foyer = "*"
governor = "*"
hex = "*"
kamadak-exif = "*"
libvips = "*"
metrics = "*"
num_cpus = "*"
rand = "*"
reqwest = { version = "*", default-features = false }
serde = { version = "*", features = ["derive"] }
serde_json = "*"
thiserror = "*"
tokio = { version = "*", features = ["full"] }
tracing = "*"
