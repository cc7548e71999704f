[package]
name = "app_libs"
version = "0.1.0"
edition = "2021"
publish = false

[dependencies]
ulid = "*"
uuid = { version = "*", features = ["v7"] }
nanoid = "*"
lettre = { version = "*", default-features = false, features = ["builder", "smtp-transport", "tokio1", "tokio1-native-tls"] }
chrono-tz = "*"
http = "*"
jiff = "*"
jsonwebtoken = { version = "*", features = ["rust_crypto"] }
serde = { version = "*", features = ["derive"] }
serde_json = "*"
thiserror = "*"
tokio = { version = "*", features = ["full"] }
maxminddb = "*"
reqwest = "*"
flate2 = "*"
tar = "*"
tracing = "*"
tracing-subscriber = { version = "*", features = ["env-filter"] }
opentelemetry = "*"
opentelemetry_sdk = "*"
opentelemetry-otlp = { version = "*", features = ["grpc-tonic", "http-proto", "metrics", "trace"] }
tracing-opentelemetry = "*"
axum = "*"
tower = { version = "*", features = ["util"] }
tower-http = { version = "*", features = ["fs", "timeout", "trace", "compression-full"] }
tower_governor = "*"
hypertext = "*"
dotenvy = "*"
anyhow = "*"
