[package]
name = "persona-introspect"
version = "0.1.0"
edition = "2021"
publish = false

[dependencies]
kameo = "0.20.0"
tokio = { version = "1.49.0", features = ["rt-multi-thread"] }
