[package]
name = "gi_status"
version = "0.1.0"
edition = "2021"
publish = false

[dependencies]
dashmap = "6"
zbus = { version = "5", default-features = false, features = ["tokio", "blocking-api"] }
tokio = { version = "1", features = ["rt", "macros", "time", "sync"] }
futures-lite = "2"
clap = { version = "4", features = ["cargo"] }
notify = "*"
serde = { version = "1", features = ["derive"] }
serde_json = "1"
thiserror = "*"
