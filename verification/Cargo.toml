[package]
name = "klondike"
version = "0.1.0"
edition = "2021"
publish = false

[dependencies]
uuid = { version = "1", features = ["v4", "serde"] }
chrono = { version = "0.4", features = ["serde"] }
serde = { version = "1", features = ["derive"] }
async-trait = "0.1"
axum = "0.8"
sqlx = { version = "0.8", default-features = false, features = ["sqlite", "runtime-tokio"] }
