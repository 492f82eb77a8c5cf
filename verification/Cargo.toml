[package]
name = "gorkd"
version = "0.1.0"
edition = "2021"
publish = false

[dependencies]
serde_json = "*"
nanoid = "*"
chrono = "*"
serde = { version = "*", features = ["derive"] }
axum = "*"
tokio = { version = "*", features = ["rt-multi-thread", "macros", "net", "signal"] }
reqwest = { version = "*", default-features = false, features = ["json", "blocking"] }
url = "*"
