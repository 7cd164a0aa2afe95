[package]
name = "potassium_shot"
version = "0.1.0"
edition = "2021"
publish = false

[dependencies]
argon2 = { version = "0.5", features = ["std"] }
chrono = "0.4"
anyhow = "1"
axum = "0.8"
tokio = { version = "1", features = ["full"] }
sqlx = { version = "0.8", default-features = false, features = ["sqlite", "runtime-tokio", "chrono", "migrate"] }
serde = { version = "1", features = ["derive"] }
zeroize = { version = "1", features = ["serde"] }
tracing = "0.1"
tracing-subscriber = "0.3"
libloading = "0.8"
reqwest = { version = "0.12", default-features = false, features = ["json", "rustls-tls"] }
