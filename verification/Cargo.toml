[package]
name = "resource_monitor"
version = "0.1.0"
edition = "2021"
publish = false

[dependencies]
chrono = { version = "=0.4.45", default-features = false, features = ["clock"] }
dark-light = "=2.0.0"
dirs-2 = "=3.0.1"
log = "=0.4.34"
serde = { version = "=1.0.229", features = ["derive"] }
serde_json = "=1.0.154"
sysinfo = { version = "=0.30.13", default-features = false }
tokio = { version = "=1.54.1", features = ["rt", "rt-multi-thread", "time"] }
