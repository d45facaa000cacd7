[package]
name = "sqlite_repros"
version = "0.1.0"
edition = "2021"
publish = false

[dependencies]
futures = "0.3"
serde_json = "1"
sqlx = { version = "=0.8.6", default-features = false, features = ["runtime-tokio", "sqlite"] }
tempfile = "3"
tokio = { version = "1", features = ["rt-multi-thread", "macros", "sync", "time"] }
