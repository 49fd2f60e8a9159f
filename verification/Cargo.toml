[package]
name = "authorization-registry"
version = "0.1.0"
edition = "2021"
publish = false

[dependencies]
ishare = "=0.6.5"
jsonwebtoken = "=9.3.1"
chrono = "=0.4.45"
serde_json = "=1.0.154"
serde = { version = "=1.0.229", features = ["derive"] }
anyhow = "=1.0.104"
async-trait = "=0.1.92"
reqwest = "=0.12.28"
tokio = { version = "=1.54.1", features = ["macros", "rt-multi-thread", "net", "sync"] }
clap = { version = "=4.6.7", features = ["derive"] }
tracing = "=0.1.44"
tower-http = { version = "=0.6.11", features = ["trace"] }
axum = "0.7"
tracing-subscriber = { version = "0.3", features = ["env-filter"] }
sea-orm = { version = "1", default-features = false, features = ["sqlx-postgres", "runtime-tokio-rustls", "macros"] }
sea-orm-migration = { version = "1", default-features = false, features = ["sqlx-postgres", "runtime-tokio-rustls"] }

[dev-dependencies]
openssl = "=0.10.81"
tempfile = "=3.27.0"
