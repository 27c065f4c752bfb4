[package]
name = "sipdah_be"
version = "0.1.0"
edition = "2021"
publish = false

[dependencies]
bcrypt = "=0.19.3"
jsonwebtoken = { version = "=11.1.0", features = ["rust_crypto"] }
serde_json = "=1.0.151"
validator = "=0.21.0"
chrono = "=0.4.45"
serde = { version = "=1.0.229", features = ["derive"] }
axum = "=0.8.9"
axum-extra = { version = "=0.12.6", features = ["cookie", "typed-header"] }
time = "=0.3.55"
tokio = { version = "=1.53.2", features = ["rt-multi-thread", "macros", "net"] }
tower-http = { version = "=0.7.1", features = ["cors"] }
