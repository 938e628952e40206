[package]
name = "imkitchen"
version = "0.1.0"
edition = "2021"
publish = false

[dependencies]
anyhow = "1"
askama = "=0.16.1"
async-trait = "0.1"
axum = { version = "=0.8.9", features = ["multipart", "macros"] }
axum-extra = { version = "=0.12.6", features = ["cookie"] }
bitcode = "=0.6.9"
clap = { version = "4", features = ["derive"] }
config = "=0.15.27"
evento = { version = "=2.0.0-alpha.38", features = ["sqlite"] }
form_urlencoded = "=1.2.2"
mime_guess = "=2.0.5"
rust-embed = "=8.13.0"
serde = { version = "1", features = ["derive"] }
serde_json = "=1.0.154"
sqlx = { version = "=0.9.0", default-features = false, features = ["runtime-tokio", "sqlite", "macros"] }
sqlx_migrator = { version = "=0.20.0", features = ["sqlite", "cli"] }
tokio = { version = "1", features = ["rt-multi-thread", "macros", "net", "signal", "time"] }
tokio-util = "0.7"
tower = "0.5"
tower-http = { version = "=0.6.11", features = ["catch-panic", "compression-gzip", "limit", "sensitive-headers", "timeout", "trace"] }
tracing = "0.1"
tracing-subscriber = { version = "0.3", features = ["env-filter", "json"] }
ulid = "=1.2.1"
