[package]
name = "server"
version = "0.1.0"
edition = "2021"
publish = false

[dependencies]
arangors = { version = "=0.5.5", default-features = false, features = ["surf_async", "rocksdb"] }
axum = "=0.6.20"
bcrypt = "=0.15.1"
chrono = { version = "=0.4.45", features = ["serde"] }
jsonwebtoken = "=8.3.0"
log = { version = "=0.4.34", features = ["std"] }
schemars = { version = "=0.8.22", features = ["chrono"] }
serde = { version = "=1.0.229", features = ["derive"] }
serde_json = "=1.0.154"
tokio = { version = "=1.54.1", features = ["macros", "rt"] }
toml = "=0.7.8"
tower-http = { version = "=0.4.4", features = ["compression-gzip", "cors", "propagate-header", "trace", "validate-request"] }
tracing = "=0.1.44"
urlencoding = "=2.1.3"
utoipa = { version = "=3.5.0", features = ["axum_extras", "chrono"] }
utoipa-swagger-ui = { version = "=3.1.5", features = ["axum"] }
