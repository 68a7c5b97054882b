[package]
name = "db_admin"
version = "0.1.0"
edition = "2021"
publish = false

[dependencies]
libsql = { version = "=0.10.0", default-features = false, features = ["core", "serde"] }

[dev-dependencies]
tokio = { version = "=1.54.1", features = ["rt"] }
uuid = { version = "=1.29.0", features = ["v4"] }
chrono = { version = "=0.4.45" }
serde = { version = "=1.0.229" }
