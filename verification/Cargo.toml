[package]
name = "waveflow"
version = "0.1.0"
edition = "2021"
publish = false

[dependencies]
hmac = "=0.12.1"
sha2 = "=0.10.9"
hex = "=0.4.3"
subtle = "=2.6.1"
serde = { version = "=1.0.229", features = ["derive"] }
serde_json = "=1.0.154"
uuid = { version = "=1.29.0", features = ["v4", "serde"] }
chrono = { version = "=0.4.45", default-features = false, features = ["clock", "serde", "std"] }
anyhow = "=1.0.104"
tokio = { version = "=1.54.1", features = ["macros", "rt-multi-thread", "net"] }
axum = "=0.7.9"
tower-http = { version = "=0.5.2", features = ["limit", "trace"] }
sqlx = { version = "=0.8.6", default-features = false, features = ["runtime-tokio", "postgres", "uuid", "chrono", "json", "macros"] }
reqwest = { version = "=0.12.28", default-features = false }
tracing = "=0.1.44"
tracing-subscriber = { version = "=0.3.23", features = ["env-filter"] }
metrics = "=0.23.1"
metrics-exporter-prometheus = { version = "=0.15.3", default-features = false }
utoipa = { version = "=5.5.0", features = ["uuid", "chrono"] }
utoipa-swagger-ui = { version = "=8.1.0", features = ["axum", "vendored"] }
zip = { version = "=2.2.3", default-features = false, features = ["deflate"] }
