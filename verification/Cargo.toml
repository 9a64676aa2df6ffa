[package]
name = "can_types"
version = "0.1.0"
edition = "2021"
publish = false

[dependencies]
bitflags = "1.3"
bytes = "1"
embedded-can = "0.4"
socketcan = "1.7"
