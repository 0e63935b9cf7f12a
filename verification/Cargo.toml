[package]
name = "example_sea_query"
version = "0.1.0"
edition = "2021"
publish = false

[dependencies]
bcrypt = "=0.19.3"
jsonwebtoken = { version = "=11.1.0", features = ["rust_crypto"] }
chrono = "=0.4.45"
sqlx = { version = "=0.8.6", default-features = false, features = ["runtime-tokio", "postgres", "macros"] }
serde = { version = "=1.0.229", features = ["derive"] }
serde_json = "=1.0.151"
axum = { version = "=0.8.9", features = ["multipart"] }
tokio = { version = "=1.53.2", features = ["macros", "rt-multi-thread", "net", "fs", "io-util"] }
async-trait = "=0.1.92"
sea-query = "=0.32.7"
sea-query-binder = { version = "=0.7.0", features = ["sqlx-postgres"] }
tower-http = { version = "=0.7.1", features = ["limit"] }
dotenv = "=0.15.0"
thiserror = "=2.0.21"
uuid = { version = "=1.27.0", features = ["v4"] }
