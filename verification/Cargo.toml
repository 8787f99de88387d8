[package]
name = "okoscope"
version = "0.1.0"
edition = "2021"
publish = false

[dependencies]
uuid = { version = "=1.29.0", features = ["v4"] }
sha2 = "=0.10.9"
hex = "=0.4.3"
url = "=2.5.8"
chrono = { version = "=0.4.45", default-features = false, features = ["std", "clock"] }
chacha20poly1305 = "=0.10.1"
rand = "=0.9.5"
dashmap = "=6.2.1"
serde = { version = "=1.0.229", features = ["derive"] }
serde_json = "=1.0.154"
serde_yaml = "=0.9.34"
lettre = { version = "0.11", default-features = false, features = ["builder"] }
tokio = { version = "1", default-features = false, features = ["sync"] }
