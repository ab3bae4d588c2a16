[package]
name = "shark_share"
version = "0.1.0"
edition = "2021"
publish = false

[dependencies]
rand = "=0.8.8"
chrono = "=0.4.45"
jsonwebtoken = "=8.3.0"
uuid = { version = "=1.29.1", features = ["v4"] }
serde = { version = "=1.0.229", features = ["derive"] }
serde_json = { version = "=1.0.154", features = ["preserve_order"] }
axum = { version = "=0.5.17", features = ["headers", "multipart"] }
tokio = { version = "=1.54.1", features = ["full"] }
tokio-util = { version = "=0.7.20", features = ["io"] }
sea-orm = { version = "=0.10.7", default-features = false, features = ["macros", "with-json", "with-chrono", "postgres-array", "sqlx-postgres", "runtime-tokio-rustls"] }
sea-orm-migration = { version = "=0.10.7", default-features = false, features = ["sqlx-postgres", "runtime-tokio-rustls"] }
rusoto_core = { version = "=0.48.0", default-features = false, features = ["rustls"] }
rusoto_s3 = { version = "=0.48.0", default-features = false, features = ["rustls"] }
rusoto_credential = "=0.48.0"
rusoto_signature = "=0.48.0"
futures = "=0.3.34"
once_cell = "=1.21.4"
dotenv = "=0.15.0"
tower = "=0.4.13"
tracing = "=0.1.44"
tracing-appender = "=0.2.5"
tracing-subscriber = { version = "=0.3.23", features = ["env-filter"] }
async-trait = "=0.1.92"
