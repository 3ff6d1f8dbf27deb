[package]
name = "windmill_oss"
version = "0.1.0"
edition = "2021"
publish = false

[dependencies]
url = "=2.5.8"
sql-builder = "=3.1.1"
chrono = { version = "=0.4.45", default-features = false, features = ["clock", "std"] }
serde = { version = "=1.0.229", features = ["derive"] }
serde_json = { version = "=1.0.154", features = ["preserve_order"] }
jsonwebtoken = "=9.3.1"
reqwest = { version = "=0.12.28", default-features = false, features = ["json"] }
tokio = { version = "=1.54.1", features = ["rt", "time"] }
axum = "=0.7.9"
sqlx = { version = "=0.8.6", default-features = false, features = ["postgres", "json", "chrono", "runtime-tokio"] }
mail-send = "=0.5.2"
aws-config = { version = "=1.13.0", default-features = false, features = ["behavior-version-latest", "rt-tokio"] }
aws-sdk-secretsmanager = { version = "=1.125.0", default-features = false, features = ["rt-tokio"] }
tracing = "=0.1.44"
async-trait = "=0.1.92"
anyhow = "=1.0.104"
lazy_static = "=1.5.1"
arc-swap = "=1.9.3"
