[package]
name = "bl602_flash_algo"
version = "0.1.0"
edition = "2021"
publish = false

[dependencies]
embedded-hal = "=1.0.0-alpha.5"
panic-rtt-target = "0.1.3"
riscv-rt = "0.8.1"
rtt-target = { version = "0.3.1", features = ["riscv"] }
