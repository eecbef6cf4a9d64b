[package]
name = "pacwoman"
version = "0.1.7"
edition = "2021"
publish = false

[dependencies]
alpm = { version = "=5.0.2", default-features = false }
ctrlc = "=3.5.2"
libc = "=0.2.191"
reqwest = { version = "=0.12.28", default-features = false, features = ["blocking", "rustls-tls"] }
serde = { version = "=1.0.229", features = ["derive"] }
serde_json = "=1.0.154"
