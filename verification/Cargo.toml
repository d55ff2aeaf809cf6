[package]
name = "todo_store"
version = "0.1.0"
edition = "2021"
publish = false

[dependencies]
futures = "0.3"
serde = { version = "1", features = ["derive"] }
sqlx = { version = "0.8", default-features = false, features = ["sqlite", "runtime-tokio"] }
tauri = { version = "2", default-features = false }

[dev-dependencies]
tokio = { version = "1", features = ["rt", "time"] }
