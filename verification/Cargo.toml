[package]
name = "lightcrazy"
version = "0.1.0"
edition = "2021"
publish = false

[dependencies]
anyhow = "=1.0.104"
crossterm = "0.29"
ctrlc = "=3.5.2"
dirs = "=5.0.1"
env_logger = "=0.11.11"
hidapi = { version = "=2.6.7", default-features = false, features = ["linux-native-basic-udev"] }
ksni = { version = "=0.3.7", features = ["blocking"] }
log = "=0.4.35"
nix = { version = "=0.29.0", features = ["fs"] }
notify-rust = "=4.18.2"
ratatui = "=0.30.2"
serde = { version = "=1.0.229", features = ["derive"] }
serde_json = "=1.0.154"
throbber-widgets-tui = "0.11"
tui-slider = "=0.4.7"
zbus = "=5.19.0"
