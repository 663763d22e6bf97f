[package]
name = "tps_monitor"
version = "0.1.0"
edition = "2021"
publish = false

[dependencies]
detour = "*"
lazy_static = "*"
winapi = { version = "*", features = ["libloaderapi"] }
