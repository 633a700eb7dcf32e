[package]
name = "floret"
version = "0.1.0"
edition = "2021"
publish = false

[dependencies]
lightyear = { version = "=0.28.0", default-features = false }
bevy = { version = "=0.19.1", default-features = false }
serde = { version = "=1.0.229", features = ["derive"] }
getrandom = "=0.3.4"
tokio = { version = "=1.54.1", default-features = false, features = ["rt"] }
