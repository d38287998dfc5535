[package]
name = "auth_service"
version = "0.1.0"
edition = "2021"
publish = false

[dependencies]
actix-web = { version = "=4.15.0", features = ["secure-cookies"] }
chrono = "=0.4.45"
derive_more = { version = "=2.1.1", features = ["display", "error", "from"] }
dotenvy = "=0.15.7"
log = "=0.4.34"
mysql = "=28.0.3"
serde = { version = "=1.0.229", features = ["derive"] }
sha2 = "=0.10.9"
