[package]
name = "drive_service"
version = "0.1.0"
edition = "2021"
publish = false

[dependencies]
uuid = { version = "=1.29.0", features = ["v7", "serde"] }
sha2 = "=0.10.9"
hex = "=0.4.3"
argon2 = { version = "=0.5.3", features = ["std"] }
serde = { version = "=1.0.229", features = ["derive"] }
serde_json = "=1.0.154"
chrono = { version = "=0.4.45", features = ["serde"] }
axum = "=0.8.9"
tokio = { version = "=1.54.1", features = ["full"] }
sea-orm = { version = "=1.1.20", default-features = false, features = ["macros", "with-uuid", "with-chrono", "with-json", "sqlx-postgres", "runtime-tokio-rustls"] }
sea-orm-migration = { version = "=1.1.20", default-features = false, features = ["sqlx-postgres", "runtime-tokio-rustls"] }
anyhow = "=1.0.104"
tracing = "=0.1.44"
tracing-subscriber = { version = "=0.3.23", features = ["env-filter"] }
tower-http = { version = "=0.6.11", features = ["trace"] }
reqwest = { version = "=0.12.28", default-features = false, features = ["json", "rustls-tls"] }
jsonwebtoken = "=9.3.1"
async-trait = "=0.1.92"
