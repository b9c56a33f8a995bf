[package]
name = "rust_rpi_4wd_car"
version = "0.1.0"
edition = "2021"
publish = false

[dependencies]
embedded-hal = { version = "=0.2.7", features = ["unproven"] }
rppal = { version = "=0.12.0", features = ["hal-unproven"] }
thiserror = "=1.0.69"
