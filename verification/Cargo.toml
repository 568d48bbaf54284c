[package]
name = "shuvgrok"
version = "0.1.0"
edition = "2021"
publish = false

[dependencies]
anyhow = "1"
async-trait = "0.1"
axum = "0.8"
base64 = "0.22"
chrono = "0.4"
dirs = "6"
jsonwebtoken = { version = "10", default-features = false, features = ["rust_crypto"] }
libc = "0.2"
rand = "0.9"
rapidhash = "4"
reqwest = { version = "0.12", default-features = false, features = ["json", "rustls-tls"] }
schemars = "1"
serde = { version = "1", features = ["derive"] }
serde_json = "1"
sha2 = "0.10"
tokio = { version = "1", features = ["full"] }
tracing = "0.1"
url = "2"
urlencoding = "2"
uuid = { version = "1", features = ["v7"] }
webbrowser = "1"
which = "8"
