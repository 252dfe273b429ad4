[package]
name = "x86emu"
version = "0.1.0"
edition = "2021"
publish = false

[dependencies]
iced-x86 = { version = "*", default-features = false, features = ["std", "decoder"] }
anyhow = "*"
log = "*"
