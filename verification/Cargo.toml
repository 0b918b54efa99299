[package]
name = "parami_exam"
version = "0.1.0"
edition = "2021"
publish = false

[dependencies]
anyhow = "1"
askama = "0.12"
axum = "0.7"
axum-extra = { version = "0.9", features = ["multipart"] }
bytesize = "1"
chrono = "0.4"
clap = "4"
dotenvy = "0.15"
log = "0.4"
once_cell = "1"
pretty_env_logger = "0.5"
serde = { version = "1", features = ["derive"] }
tokio = { version = "1", features = ["full"] }
tower-http = { version = "0.5", features = ["fs", "trace", "limit"] }
ulid = "1"
