[package]
name = "queue"
version = "0.1.0"
edition = "2021"
publish = false

[dependencies]
chrono = { version = "0.4", features = ["serde"] }
clap = { version = "4", features = ["derive"] }
ctrlc = "3"
serde = { version = "1", features = ["derive"] }
serde_json = "1"
sysinfo = "*"
tempfile = "3"
thiserror = "*"
uuid = { version = "1", features = ["v4"] }
