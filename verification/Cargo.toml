[package]
name = "wp_connectors"
version = "0.1.0"
edition = "2021"
publish = false

[dependencies]
regex = "*"
serde_json = "*"
chrono = "*"
tokio = { version = "*", features = ["rt", "macros", "time"] }
reqwest = { version = "*", default-features = false }
sqlx = { version = "*", default-features = false, features = ["mysql", "runtime-tokio"] }
