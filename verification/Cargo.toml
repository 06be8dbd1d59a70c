[package]
name = "timed_routes"
version = "0.1.0"
edition = "2021"
publish = false

[dependencies]
axum = "*"
tokio = { version = "*", features = ["macros", "rt-multi-thread", "time", "net"] }
tower = { version = "*", features = ["timeout", "util"] }
