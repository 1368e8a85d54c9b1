[package]
name = "underway"
version = "0.1.0"
edition = "2021"
publish = false

[dependencies]
sqlx = { version = "=0.8.6", default-features = false, features = ["postgres", "runtime-tokio"] }
