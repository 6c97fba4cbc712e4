[package]
name = "kybe_backend"
version = "0.1.0"
edition = "2021"
publish = false

[dependencies]
anyhow = "=1.0.104"
argon2 = { version = "=0.5.3", features = ["std"] }
async-trait = "=0.1.92"
axum = "=0.8.9"
chrono = { version = "=0.4.45", features = ["serde"] }
futures = "=0.3.34"
lazy_static = "=1.5.1"
lettre = { version = "=0.11.23", default-features = false, features = ["builder", "smtp-transport", "tokio1-rustls-tls", "hostname"] }
maxminddb = "=0.32.0"
once_cell = "=1.21.4"
poise = "=0.7.1"
prometheus-client = "=0.25.2"
reqwest = { version = "=0.13.5", default-features = false, features = ["json", "multipart"] }
rsc = "=3.0.0"
serde = { version = "=1.0.229", features = ["derive"] }
serde_json = "=1.0.154"
serde_qs = "=1.1.3"
sqlx = { version = "=0.9.0", default-features = false, features = ["postgres", "runtime-tokio", "uuid", "chrono", "json", "migrate", "macros"] }
staticmap = "=0.4.2"
thiserror = "=2.0.21"
tokio = { version = "=1.54.1", features = ["full"] }
toml = "=1.2.1"
tracing = "=0.1.44"
tracing-appender = "=0.2.5"
tracing-subscriber = { version = "=0.3.23", features = ["env-filter"] }
trippy-core = "=0.13.0"
urlencoding = "=2.1.3"
uuid = { version = "=1.29.1", features = ["v7"] }
