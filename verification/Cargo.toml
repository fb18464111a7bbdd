[package]
name = "captcha_solvers"
version = "0.1.0"
edition = "2021"
publish = false

[dependencies]
base64 = "0.22"
serde = { version = "1", features = ["derive"] }
serde_json = "1"
reqwest = { version = "0.12", default-features = false, features = ["json", "rustls-tls"] }
reqwest-middleware = { version = "0.4", features = ["json"] }
secrecy = "0.10"
tokio = { version = "1", features = ["time", "macros", "rt-multi-thread"] }
tokio-util = "0.7"
thiserror = "2"
backon = "1"
