[package]
name = "init_packages"
version = "0.1.0"
edition = "2021"
publish = false

[dependencies]
axum = "*"
lazy_static = "*"
serde = { version = "*", features = ["derive"] }
serde_json = "*"
tracing = "*"
utoipa = "*"
