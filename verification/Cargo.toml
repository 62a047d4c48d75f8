[package]
name = "s3_stats"
version = "0.1.0"
edition = "2021"
publish = false

[dependencies]
axum = "0.7"
dotenvy = "0.15"
serde = { version = "1", features = ["derive"] }
sysinfo = "0.30"
tokio = { version = "1", features = ["full"] }
walkdir = "2"
zip = { version = "0.6", default-features = false, features = ["deflate"] }
