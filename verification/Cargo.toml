[package]
name = "vrmemoir"
version = "0.1.0"
edition = "2021"
publish = false

[dependencies]
anyhow = "1"
audiopus = "0.2"
axum = "0.7"
base64 = "0.22"
chrono = "0.4"
dotenvy = "0.15"
ogg = "0.9"
once_cell = "1"
regex = "1"
reqwest = { version = "0.12", default-features = false, features = ["json", "rustls-tls", "socks"] }
rusqlite = { version = "0.32", features = ["bundled"] }
serde = { version = "1", features = ["derive"] }
serde_json = "1"
sys-locale = "0.3"
sysinfo = "0.33"
tokio = { version = "1", features = ["full"] }
tower-http = { version = "0.6", features = ["cors"] }
tracing = "0.1"
tracing-subscriber = "0.3"
urlencoding = "2"
wasapi = "*"
winreg = "*"
