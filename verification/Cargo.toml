[package]
name = "backtester"
version = "0.1.0"
edition = "2021"
publish = false

[dependencies]
axum = "0.6"
serde = { version = "1", features = ["derive"] }
ta = "0.5"
tokio = { version = "1", features = ["macros", "rt-multi-thread"] }
