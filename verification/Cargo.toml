[package]
name = "maulingmonkey_format_exe"
version = "0.1.0"
edition = "2021"
publish = false

[dependencies]
abistr = "0.1.1"
bitflags = "1.3.2"
bytemuck = { version = "1", features = ["derive"] }
