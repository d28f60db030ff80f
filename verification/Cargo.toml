[package]
name = "mangofetch-gui"
version = "0.1.0"
edition = "2021"
publish = false

[dependencies]
egui = "0.31"
font-loader = "0.11"
serde = { version = "1", features = ["derive"] }
sysinfo = "0.30"
dirs = "*"
chrono = "0.4"
anyhow = "1"
tracing = "0.1"
tracing-subscriber = "0.3"
tokio = { version = "1", features = ["rt-multi-thread", "sync", "time"] }
