[package]
name = "simple_web_server"
version = "0.1.0"
edition = "2021"
publish = false

[dependencies]
color-eyre = "*"
poem = "*"
poem-openapi = { version = "*", features = ["rapidoc"] }
tokio = { version = "*", features = ["macros", "rt-multi-thread"] }
tracing = "*"
tracing-subscriber = "*"
