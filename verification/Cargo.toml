[package]
name = "reservations"
version = "0.1.0"
edition = "2021"
publish = false

[dependencies]
uuid = { version = "=1.29.0", features = ["v4", "serde", "js"] }
rand = "=0.8.8"
serde = { version = "=1.0.229", features = ["derive"] }
serde_json = "=1.0.154"
anyhow = "=1.0.104"
axum = "=0.8.9"
sqlx = { version = "=0.8.6", default-features = false, features = ["runtime-tokio", "postgres", "uuid", "time", "macros", "migrate"] }
tokio = { version = "=1.54.1", features = ["macros", "rt-multi-thread", "net", "time", "sync"] }
tower-http = { version = "=0.6.11", features = ["cors", "trace"] }
tracing = "=0.1.44"
tracing-subscriber = { version = "=0.3.23", features = ["env-filter", "fmt"] }
reqwest = { version = "=0.12.28", default-features = false, features = ["json"] }
clap = { version = "=4.6.7", features = ["derive"] }
humantime = "=2.4.0"
leptos = { version = "=0.6.15", features = ["csr"] }
gloo-net = { version = "=0.6.0", default-features = false, features = ["http", "json"] }
web-sys = { version = "=0.3.107", features = ["Window", "Storage"] }
js-sys = "=0.3.107"
