[package]
name = "huiyu_db_mapper"
version = "0.1.0"
edition = "2021"
publish = false

[dependencies]
chrono = "0.4"
url = "2"
uuid = { version = "1", features = ["v4"] }
tokio = { version = "1", features = ["rt", "macros", "sync"] }
thiserror = "*"
serde = { version = "1", features = ["derive"] }
serde_json = "1"
rusqlite = { version = "*", features = ["bundled"] }
