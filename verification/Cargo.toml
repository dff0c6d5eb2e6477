[package]
name = "vga_console"
version = "0.1.0"
edition = "2021"
publish = false

[dependencies]
bootloader_api = "0.11"
lazy_static = { version = "1.4", features = ["spin_no_std"] }
ovmf-prebuilt = "0.1.0-alpha.1"
spin = "0.9"
volatile = "0.2.6"
