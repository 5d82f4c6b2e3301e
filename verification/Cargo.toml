[package]
name = "auth_extension"
version = "0.1.0"
edition = "2021"
publish = false

[dependencies]
axum = "*"
corex-api = "*"
md5 = "0.7"
serde = { version = "1", features = ["derive"] }
sqlx = { version = "*", default-features = false, features = ["sqlite", "runtime-tokio", "migrate"] }
