[package]
name = "liveo"
version = "0.1.0"
edition = "2021"
publish = false

[dependencies]
aes-gcm = "*"
axum = { version = "*", features = ["ws"] }
base64 = "*"
chrono = "*"
serde = { version = "*", features = ["derive"] }
serde_json = "*"
tokio = { version = "*", features = ["full"] }
tokio-postgres = { version = "*", features = ["with-chrono-0_4", "with-uuid-1"] }
uuid = { version = "*", features = ["v4", "serde"] }
