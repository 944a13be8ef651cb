[package]
name = "pinespot"
version = "0.1.0"
edition = "2021"
publish = false

[dependencies]
jsonwebtoken = "=9.3.1"
uuid = { version = "=1.29.0", features = ["v4", "serde"] }
bcrypt = "=0.19.3"
validator = { version = "=0.21.0", features = ["derive"] }
infer = "=0.22.0"
serde = { version = "=1.0.229", features = ["derive"] }
serde_json = { version = "=1.0.154", features = ["preserve_order"] }
chrono = { version = "=0.4.45", features = ["serde"] }
object_store = { version = "=0.14.2", default-features = false, features = ["gcp"] }
bigdecimal = { version = "=0.4.11", features = ["serde"] }
axum = { version = "=0.8.9", features = ["multipart"] }
axum-extra = { version = "=0.12.6", features = ["cookie-private", "typed-header"] }
tokio = { version = "=1.54.1", features = ["full"] }
sqlx = { version = "=0.8.6", default-features = false, features = ["runtime-tokio", "postgres", "uuid", "chrono", "bigdecimal", "json", "macros"] }
reqwest = { version = "=0.12.28", default-features = false, features = ["json", "rustls-tls"] }
oauth2 = { version = "=5.0.0", features = ["reqwest"] }
tracing = "=0.1.44"
tracing-subscriber = { version = "=0.3.23", features = ["env-filter"] }
tower-http = { version = "=0.6.11", features = ["cors", "trace"] }
dotenvy = "=0.15.7"
qdrant-client = "*"
