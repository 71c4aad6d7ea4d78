[package]
name = "mission_service"
version = "0.1.0"
edition = "2021"
publish = false

[dependencies]
anyhow = "=1.0.104"
axum = "=0.8.9"
bcrypt = "=0.19.3"
bigdecimal = "=0.4.11"
chrono = { version = "=0.4.45", features = ["serde"] }
dotenv = "=0.15.0"
jsonwebtoken = "=9.3.1"
reqwest = { version = "=0.12.28", default-features = false, features = ["json"] }
serde = { version = "=1.0.229", features = ["derive"] }
serde_json = { version = "=1.0.154", features = ["preserve_order"] }
sqlx = { version = "=0.8.6", default-features = false, features = ["postgres", "runtime-tokio", "chrono", "derive", "bigdecimal"] }
thiserror = "=1.0.69"
tokio = { version = "=1.54.1", features = ["macros", "rt-multi-thread", "net"] }
tracing = "=0.1.44"
tracing-subscriber = "=0.3.23"
utoipa = "=5.5.0"
uuid = { version = "=1.29.0", features = ["v4"] }
