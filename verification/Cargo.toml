[package]
name = "tipfinity"
version = "0.1.0"
edition = "2021"
publish = false

[dependencies]
anchor-lang = "0.28.0"
rand = "0.8"
axum = "0.7"
reqwest = { version = "0.11", default-features = false, features = ["json"] }
serde = { version = "1", features = ["derive"] }
serde_json = "1"
sqlx = { version = "0.7", default-features = false, features = ["postgres", "runtime-tokio"] }
