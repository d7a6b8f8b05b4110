[package]
name = "studio_companion"
version = "0.1.0"
edition = "2021"
publish = false

[dependencies]
dirs = "*"
serde = { version = "*", features = ["derive"] }
axum = "*"
tokio = { version = "*", features = ["rt-multi-thread", "net", "macros"] }
tower-http = { version = "*", features = ["cors"] }
