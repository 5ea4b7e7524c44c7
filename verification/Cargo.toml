[package]
name = "whispy"
version = "0.1.0"
edition = "2021"
publish = false

[dependencies]
arboard = { version = "3", default-features = false }
core-foundation = "0.10"
cpal = "*"
dirs = "6"
enigo = "*"
global-hotkey = "*"
hound = "3"
http = "1"
reqwest = { version = "0.12", default-features = false, features = ["rustls-tls", "multipart", "json"] }
serde = { version = "1", features = ["derive"] }
serde_json = "1"
tokio = { version = "1", features = ["rt"] }
tracing = "0.1"
tracing-subscriber = { version = "0.3", default-features = false, features = ["fmt", "env-filter", "std"] }
