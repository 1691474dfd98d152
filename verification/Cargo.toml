[package]
name = "healthsrv"
version = "0.1.0"
edition = "2021"
publish = false

[dependencies]
minijinja = { version = "*", features = ["loader"] }
axum = "*"
tokio = { version = "*", features = ["macros", "rt-multi-thread", "net"] }
tower-http = { version = "*", features = ["trace"] }
tracing = "*"
tracing-subscriber = "*"
