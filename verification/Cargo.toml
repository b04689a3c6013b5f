[package]
name = "repitile_core"
version = "0.1.0"
edition = "2021"
publish = false

[dependencies]
chrono = "*"
serde = { version = "*", features = ["derive"] }
toml = "*"
timer = "*"
sysfs_gpio = "*"
