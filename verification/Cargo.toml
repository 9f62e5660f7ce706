[package]
name = "lockdown_pairing"
version = "0.1.0"
edition = "2021"
publish = false

[dependencies]
dialoguer = "=0.12.0"
env_logger = "=0.11.11"
log = "=0.4.34"
rfd = { version = "=0.17.2", default-features = false, features = ["xdg-portal"] }
rusty_libimobiledevice = "=0.2.3"
