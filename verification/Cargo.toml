[package]
name = "plc_runtime"
version = "0.1.0"
edition = "2021"
publish = false

[dependencies]
rmodbus = "0.6"
serde = { version = "1", features = ["derive"] }
serde_yaml = "0.9"
ansi_term = "0.12"
serial = "0.4"
