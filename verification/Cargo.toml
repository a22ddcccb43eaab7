[package]
name = "hypridle_manager"
version = "0.1.0"
edition = "2021"
publish = false

[dependencies]
dirs = "5"
futures = "0.3"
log = "0.4"
ron = "0.8"
serde = { version = "1", features = ["derive"] }
simplelog = "0.12"
tokio = { version = "1", features = ["macros", "process", "rt-multi-thread", "sync"] }
upower_dbus = "*"
zbus = "3"
