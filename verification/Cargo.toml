[package]
name = "thread_tracker"
version = "0.1.0"
edition = "2021"
publish = false

[dependencies]
argon2 = "0.5"
hex = "0.4"
serde = { version = "1", features = ["derive"] }
rocket = { version = "0.5", features = ["secrets", "json"] }
rocket_db_pools = { version = "0.1", features = ["sqlx_mysql"] }
