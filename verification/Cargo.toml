[package]
name = "radrun_api"
version = "0.1.0"
edition = "2021"
publish = false

[dependencies]
argon2 = "=0.5.3"
password-hash = { version = "=0.5.0", features = ["getrandom"] }
uuid = { version = "=1.27.0", features = ["v4"] }
axum = "=0.8.9"
axum-extra = { version = "=0.10.3", features = ["cookie"] }
cookie = "=0.18.2"
chrono = "=0.4.45"
serde = { version = "=1.0.229", features = ["derive"] }
tokio = { version = "=1.53.2", features = ["rt-multi-thread", "net", "macros"] }
