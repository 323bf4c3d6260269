[package]
name = "warpdrive"
version = "0.1.0"
edition = "2021"
publish = false

[dependencies]
axum = "0.8"
futures = "0.3"
tower = "0.5"
warp = "0.3"

[dev-dependencies]
tokio = { version = "1", features = ["rt"] }
