[package]
name = "renderenko"
version = "0.1.0"
edition = "2021"
publish = false

[dependencies]
actix-web = { version = "=4.18.1", default-features = false, features = ["macros"] }
actix-multipart = "=0.6.2"
http-serde = "=2.1.1"
image = { version = "=0.25.10", default-features = false, features = ["png"] }
serde = { version = "=1.0.229", features = ["derive"] }
tokio = { version = "=1.54.1", features = ["rt-multi-thread", "macros"] }
