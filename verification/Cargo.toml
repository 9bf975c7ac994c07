[package]
name = "demo_server"
version = "0.1.0"
edition = "2021"
publish = false

[dependencies]
css-inline = "0.14"
axum = "0.6"
tokio = { version = "1", features = ["full"] }
reqwest = { version = "0.11", default-features = false }
log = "0.4"
