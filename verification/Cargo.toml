[package]
name = "shortener"
version = "0.1.0"
edition = "2021"
publish = false

[dependencies]
anyhow = "1"
axum = "0.8"
deadpool-postgres = "=0.14.2"
deadpool-redis = "=0.23.1"
image = { version = "=0.25.6", default-features = false, features = ["gif", "jpeg", "png", "webp"] }
moka = { version = "=0.12.16", features = ["sync"] }
qrcode = { version = "=0.14.1", default-features = false, features = ["image", "svg"] }
rand = "=0.9.5"
serde = { version = "1", features = ["derive"] }
tokio = { version = "1", features = ["macros", "net", "rt-multi-thread", "time"] }
tower = "0.5"
tower-http = { version = "0.6", features = ["compression-deflate", "compression-gzip", "decompression-deflate", "decompression-gzip"] }
tracing = "0.1"
tracing-subscriber = { version = "0.3", features = ["env-filter"] }
url = "=2.5.8"
