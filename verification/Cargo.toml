[package]
name = "scan_console"
version = "0.1.0"
edition = "2021"
publish = false

[dependencies]
crossterm = { version = "0.26", features = ["event-stream"] }
forensic-adb = "*"
ratatui = "0.22"
tokio = { version = "1", features = ["macros", "rt", "sync"] }
tokio-stream = "0.1"
