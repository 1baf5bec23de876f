[package]
name = "xdirs"
version = "0.1.0"
edition = "2021"
publish = false

[dependencies]
dirs-next = "2.0"
dirs-sys-next = "0.1"
winapi = { version = "0.3", features = ["knownfolders"] }
