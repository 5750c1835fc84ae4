[package]
name = "taskcore"
version = "0.1.0"
edition = "2021"
publish = false

[dependencies]
anyhow = "*"
async-trait = "*"
axum = "*"
chrono = "*"
dotenvy = "*"
email_address = "*"
serde = { version = "*", features = ["derive"] }
sqlx = { version = "*", default-features = false, features = ["runtime-tokio", "postgres", "chrono", "macros"] }
tokio = { version = "*", features = ["rt-multi-thread", "macros", "signal", "net"] }
tower = "*"
tower-http = { version = "*", features = ["timeout", "trace"] }
tracing = "*"
tracing-subscriber = { version = "*", features = ["env-filter"] }
uuid = { version = "*", features = ["v4"] }
