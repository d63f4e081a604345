[package]
name = "sheepstor"
version = "0.1.0"
edition = "2021"
publish = false

[dependencies]
axum = "0.8"
chrono = "0.4"
clap = { version = "4", features = ["derive"] }
log = "0.4"
secrecy = "0.10"
serde = { version = "1", features = ["derive"] }
serde_yaml = "0.9"
strum = "0.26"
strum_macros = "0.26"
tokio = { version = "1", features = ["rt-multi-thread", "macros", "net"] }
zip-extensions = "*"
