[package]
name = "catascii"
version = "0.1.0"
edition = "2021"
publish = false

[dependencies]
artem = "1"
image = "0.24"
axum = "0.6"
reqwest = { version = "0.11", default-features = false }
tokio = { version = "1", features = ["rt-multi-thread", "macros", "signal"] }
