[package]
name = "weird_wizard"
version = "0.1.0"
edition = "2021"
publish = false

[dependencies]
serde = { version = "=1.0.229", features = ["derive"] }
csv = "=1.4.0"
zip = { version = "=2.6.1", default-features = false, features = ["deflate"] }
sqlx = { version = "=0.8.6", default-features = false, features = ["sqlite", "runtime-tokio"] }
futures = "=0.3.34"
tempfile = "=3.27.0"
ts-rs = "=10.1.0"
tauri = { version = "=2.12.5", default-features = false }
