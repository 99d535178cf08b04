[package]
name = "lettro"
version = "0.1.0"
edition = "2021"
publish = false

[dependencies]
validator = "0.18"
base64 = "0.13"
argon2 = "0.5"
rand = "0.8"
axum = "0.7"
tokio = { version = "1", features = ["macros", "rt-multi-thread", "net"] }
sqlx = { version = "0.7", default-features = false, features = ["runtime-tokio", "postgres", "uuid", "time"] }
tower = "0.4"
tower-http = { version = "0.5", features = ["trace", "request-id"] }
tracing = "0.1"
uuid = { version = "1", features = ["v4"] }
time = "0.3"
serde = { version = "1", features = ["derive"] }
serde_json = "1"
reqwest = { version = "0.12", default-features = false, features = ["json"] }
anyhow = "1"
