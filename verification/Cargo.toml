[package]
name = "app_configs"
version = "0.1.0"
edition = "2021"
publish = false

[dependencies]
axum = "0.7"
chrono = { version = "0.4", features = ["serde"] }
csv = "1"
serde = { version = "1", features = ["derive"] }
sqlx = { version = "0.7", default-features = false, features = ["runtime-tokio", "postgres", "chrono", "macros"] }
tower-http = { version = "0.5", features = ["fs"] }
tracing = "0.1"
