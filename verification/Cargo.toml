[package]
name = "yap_frontend"
version = "0.1.0"
edition = "2021"
publish = false

[dependencies]
chrono = "=0.4.45"
regex = "=1.13.1"
cursive = { version = "=0.21.1", default-features = false, features = ["crossterm-backend", "toml"] }
cursive_calendar_view = "=0.9.0"
reqwest = { version = "=0.12.28", default-features = false, features = ["blocking", "json", "rustls-tls"] }
serde = { version = "=1.0.229", features = ["derive"] }
serde_json = "=1.0.154"
xdg = "=2.5.2"
