[package]
name = "ssh_service"
version = "0.1.0"
edition = "2021"
publish = false

[dependencies]
serde = { version = "1", features = ["derive"] }
socketioxide = "*"
ssh2 = "0.9"
tokio = { version = "1", features = ["rt", "rt-multi-thread"] }
tracing = "0.1"
