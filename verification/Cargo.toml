[package]
name = "chillffi"
version = "0.4.0"
edition = "2021"
publish = false

[dependencies]
bincode = { version = "=2.0.1", features = ["serde"] }
ctor = "=1.0.13"
fxhash = "=0.2.1"
ipc-channel = "=0.23.1"
libc = "=0.2.191"
libffi = "*"
libloading = "=0.9.0"
parking_lot = "=0.12.5"
serde = { version = "=1.0.229", features = ["derive"] }
serde_closure = "=0.3.3"
