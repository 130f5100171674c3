[package]
name = "tanaka_server"
version = "0.1.0"
edition = "2021"
publish = false

[dependencies]
async-trait = "*"
axum = "*"
chrono = "*"
clap = { version = "*", features = ["derive", "env"] }
dashmap = "*"
dotenvy = "*"
serde = { version = "*", features = ["derive"] }
serde_json = "*"
sqlx = { version = "*", default-features = false, features = ["runtime-tokio", "sqlite", "derive"] }
thiserror = "*"
tokio = { version = "*", features = ["rt-multi-thread", "macros", "net", "sync"] }
toml = "*"
tower = { version = "*", features = ["limit"] }
tower-http = { version = "*", features = ["cors", "limit", "timeout", "trace"] }
tracing = "*"
tracing-subscriber = { version = "*", features = ["env-filter", "json"] }
uuid = { version = "*", features = ["v4"] }
yrs = "*"
