[package]
name = "distillation_tower_monitor"
version = "0.1.0"
edition = "2021"
publish = false

[dependencies]
rodbus = "=1.3.0"
tokio = { version = "=1.53.2", features = ["macros", "rt-multi-thread", "sync", "time"] }
calamine = "=0.36.1"
rust_xlsxwriter = "=0.99.1"
serde = { version = "=1.0.229", features = ["derive"] }
serde_json = "=1.0.151"
