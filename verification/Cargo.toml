[package]
name = "agent_server"
version = "0.1.0"
edition = "2021"
publish = false

[dependencies]
uuid = { version = "=1.29.1", features = ["v4", "serde"] }
chrono = { version = "=0.4.45", default-features = false, features = ["clock", "std", "serde"] }
serde = { version = "=1.0.229", features = ["derive"] }
serde_json = "=1.0.154"
tokio = { version = "=1.54.1", features = ["rt-multi-thread", "macros", "sync", "time", "net"] }
axum = "=0.7.9"
sqlx = { version = "=0.8.6", default-features = false, features = ["postgres", "runtime-tokio", "chrono", "uuid", "macros"] }
rdkafka = "=0.36.2"
bincode = "=1.3.3"
bytes = "=1.12.1"
anyhow = "=1.0.104"
async-trait = "=0.1.92"
config = { version = "=0.14.1", default-features = false, features = ["toml"] }
clap = { version = "=4.6.7", features = ["derive"] }
serde_yaml = "=0.9.34"
serde-with-expand-env = "=1.1.0"
tracing = "=0.1.44"
tracing-subscriber = { version = "=0.3.23", features = ["env-filter"] }
tower-http = { version = "=0.5.2", features = ["compression-gzip"] }
utoipa = { version = "=4.2.3", features = ["axum_extras", "uuid", "chrono"] }
