[package]
name = "authbase"
version = "0.1.0"
edition = "2021"
publish = false

[dependencies]
argon2 = "=0.5.3"
jsonwebtoken = "=9.3.1"
rand_core = { version = "=0.6.4", features = ["getrandom"] }
serde = { version = "=1.0.229", features = ["derive"] }
sqlx = { version = "=0.8.6", features = ["any", "migrate", "runtime-tokio"] }
tokio = { version = "=1.53.2", features = ["rt-multi-thread", "macros"] }
toml = "=0.8.23"
