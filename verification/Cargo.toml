[package]
name = "wx_counter"
version = "0.1.0"
edition = "2021"
publish = false

[dependencies]
anyhow = "=1.0.104"
axum = "=0.7.9"
axum-extra = { version = "=0.9.6", features = ["typed-header"] }
dotenvy = "=0.15.7"
jsonwebtoken = "=9.3.1"
serde = { version = "=1.0.229", features = ["derive"] }
serde_json = "=1.0.154"
sqlx = { version = "=0.8.6", default-features = false, features = ["runtime-tokio", "sqlite", "time", "derive"] }
time = { version = "=0.3.55", features = ["serde"] }
tokio = { version = "=1.54.1", features = ["macros", "rt-multi-thread", "net"] }
tower = { version = "=0.4.13", features = ["util"] }
tower-http = { version = "=0.5.2", features = ["request-id", "trace", "util"] }
tracing = "=0.1.44"
tracing-subscriber = "=0.3.23"
