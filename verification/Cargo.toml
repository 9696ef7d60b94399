[package]
name = "mwscript"
version = "0.1.0"
edition = "2021"
publish = false

[dependencies]
tes3 = "*"
serde = { version = "=1.0.229", features = ["derive"] }
serde_json = "=1.0.154"
serde_yaml = "=0.9.34"
toml = "=0.8.23"
clap = { version = "=4.6.7", features = ["derive"] }
log = "=0.4.34"
simple_logger = "=4.3.3"
dirs = "=5.0.1"
eframe = { version = "0.22", default-features = false, features = ["glow", "persistence", "default_fonts"] }
egui = "0.22"
egui-notify = "0.7"
catppuccin-egui = "3.0"
open = "5"
