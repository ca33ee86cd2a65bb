[package]
name = "ttgo_3"
version = "0.1.0"
edition = "2021"
publish = false

[dependencies]
critical-section = { version = "=1.2.0", features = ["std"] }
embedded-graphics = "=0.8.2"
embedded-hal-bus = "=0.3.0"
mipidsi = "=0.10.0"
embassy-executor = "=0.10.0"
embassy-time = "=0.5.1"
log = "=0.4.34"
static_cell = "=2.1.1"
