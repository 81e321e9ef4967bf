[package]
name = "service_control"
version = "0.1.0"
edition = "2021"
publish = false

[dependencies]
windows = { version = "=0.58.0", features = ["Win32_Foundation", "Win32_Security", "Win32_System_Services"] }
windows-core = "=0.58.0"
serde = { version = "=1.0.229", features = ["derive"] }
