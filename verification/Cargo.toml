[package]
name = "open_modular"
version = "0.1.0"
edition = "2021"
publish = false

[dependencies]
rtrb = "*"
uuid = "*"
crossbeam = "*"
oneshot = "*"
thread-priority = "*"
serde = "*"
rtaudio-sys = "*"
