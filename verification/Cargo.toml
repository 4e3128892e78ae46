[package]
name = "process_monitor"
version = "0.1.0"
edition = "2021"
publish = false

[dependencies]
async-trait = "0.1"
log = "0.4"
time = { version = "0.3", features = ["std"] }
tokio = { version = "1", features = ["process", "sync"] }
