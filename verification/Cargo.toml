[package]
name = "source_update"
version = "0.1.0"
edition = "2021"
publish = false

[dependencies]
anyhow = "1"
axum = "0.8"
chrono = { version = "0.4", default-features = false, features = ["clock", "std"] }
serde_json = "1"
shlex = "1.3"
sqlx = { version = "0.8", default-features = false, features = ["macros", "migrate", "runtime-tokio", "sqlite"] }
tokio = { version = "1", features = ["fs", "macros", "net", "rt-multi-thread"] }
tonic = "*"
tracing = "0.1"
