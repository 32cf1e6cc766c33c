[package]
name = "subtle-rs"
version = "0.1.0"
edition = "2021"
publish = false

[dependencies]
regex = "=1.13.1"
x11-keysymdef = "=0.2.0"
hex_color = "=3.0.0"
x11rb = { version = "=0.13.2", features = ["randr", "xinerama"] }
anyhow = "=1.0.104"
log = "=0.4.35"
env_logger = "=0.11.11"
clap-config-file = "=0.6.0"
clap = { version = "=4.6.7", features = ["derive"] }
config = "=0.13.4"
serde = { version = "=1.0.229", features = ["derive"] }
signal-hook = "=0.4.6"
exec = "=0.3.1"
