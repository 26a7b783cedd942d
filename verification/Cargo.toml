[package]
name = "avernus"
version = "0.1.0"
edition = "2021"
publish = false

[dependencies]
futures-util = "=0.3.34"
matrix-sdk = { version = "=0.14.0", default-features = false, features = ["e2e-encryption", "sqlite", "bundled-sqlite", "sso-login", "rustls-tls"] }
mime = "=0.3.17"
mime_guess = "=2.0.5"
open = "5"
serde_json = "=1.0.154"
tokio = { version = "=1.54.1", features = ["rt-multi-thread", "sync", "time"] }
