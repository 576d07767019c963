[package]
name = "reque"
version = "0.1.0"
edition = "2021"
publish = false

[dependencies]
anyhow = "*"
chrono = "*"
config = "*"
log = "*"
log4rs = "*"
reqwest = { version = "*", default-features = false }
rocket = "*"
sqlx = { version = "*", default-features = false, features = ["mysql", "runtime-tokio"] }
