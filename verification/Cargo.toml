[package]
name = "testdb"
version = "0.1.0"
edition = "2021"
publish = false

[dependencies]
uuid = { version = "1", features = ["v4"] }
sqlx = { version = "0.8", default-features = false, features = ["postgres", "migrate", "runtime-tokio"] }
tokio = { version = "1", features = ["rt-multi-thread"] }
