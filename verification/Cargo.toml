[package]
name = "headset_battery"
version = "0.1.0"
edition = "2021"
publish = false

[dependencies]
hidapi = "*"
thiserror = "*"
