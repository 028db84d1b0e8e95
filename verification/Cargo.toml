[package]
name = "val_store"
version = "0.1.0"
edition = "2021"
publish = false

[dependencies]
chrono = { version = "=0.4.45", features = ["serde"] }
clap = { version = "=4.6.7", features = ["derive"] }
directories = "=6.0.0"
reqwest = { version = "=0.12.28", default-features = false, features = ["blocking", "json", "rustls-tls", "cookies"] }
rusqlite = { version = "=0.40.2", features = ["bundled"] }
serde = { version = "=1.0.229", features = ["derive"] }
serde_json = "=1.0.151"
serde_urlencoded = "=0.7.1"
url = "=2.5.8"
