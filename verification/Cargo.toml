[package]
name = "onepassword-sdk"
version = "0.4.1"
edition = "2021"
publish = false

[dependencies]
chrono = { version = "=0.4.45", default-features = false, features = ["clock"] }
extism = "=1.21.0"
getrandom = "=0.2.17"
libloading = "=0.8.9"
serde = { version = "=1.0.229", features = ["derive"] }
serde_json = "=1.0.154"
thiserror = "=2.0.21"
