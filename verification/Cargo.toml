[package]
name = "medbook_inventoryservice"
version = "0.1.0"
edition = "2021"
publish = false

[dependencies]
anyhow = "1"
axum = "*"
chrono = { version = "*", features = ["serde"] }
diesel = { version = "*", default-features = false, features = ["postgres_backend", "chrono"] }
diesel-async = { version = "*", features = ["postgres", "deadpool"] }
futures = "*"
lapin = { version = "*", default-features = false }
serde = { version = "1", features = ["derive"] }
serde_json = "1"
tokio = { version = "1", features = ["rt-multi-thread", "macros"] }
