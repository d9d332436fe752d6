[package]
name = "hat_ble"
version = "0.1.0"
edition = "2021"
publish = false

[dependencies]
byteorder = "1"
chrono = "0.4"
dbus = "0.6"
env_logger = "0.7"
hex = "0.4"
log = "0.4"
serde = { version = "1", features = ["derive"] }
serde_json = "1"
signal-hook = "0.1"
structopt = "0.3"
