[package]
name = "axum-hotreload"
version = "0.1.0"
edition = "2021"
publish = false

[dependencies]
anyhow = "=1.0.104"
arc-swap = "=1.9.3"
axum = "=0.8.9"
http-body = "=1.1.0"
libloading = "=0.8.9"
notify = "=8.2.1"
tokio = { version = "=1.54.1", features = ["full"] }
tower = "=0.5.3"
tower-livereload = "=0.10.3"
tracing = "=0.1.44"
tracing-subscriber = "=0.3.23"
uuid = { version = "=1.29.0", features = ["v4"] }
