[package]
name = "voice-journal"
version = "0.1.0"
edition = "2021"
publish = false

[dependencies]
chrono = "0.4"
dirs = "*"
env_logger = "*"
fs4 = "*"
global-hotkey = "*"
log = "0.4"
serde = { version = "1", features = ["derive"] }
serde_json = "1"
thiserror = "*"
toml = "*"
tray-icon = "*"
ureq = { version = "2", default-features = false, features = ["json"] }
winit = "0.30"
