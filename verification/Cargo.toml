[package]
name = "capeos"
version = "0.1.0"
edition = "2021"
publish = false

[dependencies]
anyhow = "=1.0.104"
serde = { version = "=1.0.229", features = ["derive"] }
serde_json = "=1.0.154"
axum = { version = "=0.8.9", features = ["ws"] }
tokio = { version = "=1.54.1", features = ["full"] }
tower-http = { version = "=0.6.11", features = ["cors", "compression-gzip", "trace"] }
tracing = "=0.1.44"
tracing-subscriber = { version = "=0.3.23", features = ["env-filter"] }
reqwest = { version = "=0.12.28", default-features = false, features = ["json"] }
sysinfo = "=0.33.1"
bollard = "=0.18.1"
rusqlite = { version = "=0.32.1", features = ["bundled"] }
tokio-rusqlite = "=0.6.0"
rusqlite_migration = "=1.3.1"
argon2 = "=0.5.3"
rand = "=0.8.8"
jsonwebtoken = "=9.3.1"
p256 = { version = "=0.13.2", features = ["ecdsa", "pkcs8"] }
base64 = "=0.22.1"
dashmap = "=6.2.1"
clap = { version = "=4.6.7", features = ["derive"] }
leptos = { version = "0.7", features = ["csr"] }
leptos_router = "0.7"
gloo-net = "0.6"
gloo-storage = "0.3"
wasm-bindgen-futures = "0.4"
console_error_panic_hook = "0.1"
