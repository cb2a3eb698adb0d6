[package]
name = "inboxly_ui"
version = "0.1.0"
edition = "2021"
publish = false

[dependencies]
ammonia = "4"
chrono = "0.4"
url = "2"
uuid = { version = "1", features = ["v4", "v5"] }
serde = { version = "1", features = ["derive"] }
serde_json = "1"
open = "5"
zbus = "*"
thiserror = "*"
tokio = { version = "1", features = ["rt", "time", "macros"] }

[dev-dependencies]
