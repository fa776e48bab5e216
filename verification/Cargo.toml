[package]
name = "momolite"
version = "0.1.0"
edition = "2021"
publish = false

[dependencies]
base64 = "=0.22.1"
chrono = { version = "=0.4.45", default-features = false, features = ["std", "clock"] }
getrandom = "=0.2.17"
sha2 = "=0.10.9"
serde = { version = "1", features = ["derive"] }
serde_json = "1"
reqwest = { version = "=0.12.28", default-features = false, features = ["blocking", "json"] }
rusqlite = { version = "=0.31.0", features = ["bundled"] }
tauri = { version = "2", default-features = false }
