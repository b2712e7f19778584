[package]
name = "rinux"
version = "0.1.0"
edition = "2021"
publish = false

[dependencies]
clap = { version = "=4.6.7", features = ["derive"] }
limine = "=0.5.0"
log = "=0.4.35"
ovmf-prebuilt = "=0.2.9"
spin = "=0.9.9"
x86_64 = { version = "=0.14.13", default-features = false, features = ["instructions"] }
