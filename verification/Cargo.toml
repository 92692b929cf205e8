[package]
name = "hits"
version = "0.1.0"
edition = "2021"
publish = false

[dependencies]
tokio = { version = "*", features = ["sync", "rt-multi-thread", "macros", "net"] }
shields = "*"
serde = { version = "*", features = ["derive"] }
axum = { version = "*", features = ["ws"] }
sqlx = { version = "*", default-features = false, features = ["runtime-tokio", "postgres"] }
fontdue = "*"
