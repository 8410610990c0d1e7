[package]
name = "tuyau"
version = "0.1.0"
edition = "2021"
publish = false

[dependencies]
anyhow = "=1.0.104"
async-trait = "=0.1.92"
axum = "=0.7.9"
axum-extra = { version = "=0.9.6", features = ["typed-header"] }
bytes = "=1.12.1"
http = "=1.5.0"
reqwest = { version = "=0.12.28", default-features = false, features = ["json", "rustls-tls"] }
ruma = { version = "=0.10.1", features = ["federation-api-s", "client-api-s", "server-util", "signatures", "rand", "canonical-json", "unstable-pdu"] }
sea-orm = { version = "=1.1.20", default-features = false, features = ["macros", "sqlx-sqlite", "runtime-tokio-rustls"] }
serde_json = "=1.0.154"
tokio = { version = "=1.54.1", features = ["macros", "rt-multi-thread", "net"] }
