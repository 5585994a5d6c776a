[package]
name = "comboios"
version = "0.1.0"
edition = "2021"
publish = false

[dependencies]
reqwest = { version = "*", default-features = false }
serde_json = "*"
serde = { version = "*", features = ["derive"] }
tokio = { version = "*", features = ["rt-multi-thread", "macros", "net"] }
axum = "*"
tower = { version = "*", features = ["timeout"] }
tower-http = { version = "*", features = ["cors"] }
