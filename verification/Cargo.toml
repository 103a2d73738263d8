[package]
name = "bl602_hal"
version = "0.1.0"
edition = "2021"
publish = false

[dependencies]
bl602-pac = "*"
embedded-dma = "*"
embedded-hal = "*"
embedded-hal-nb = "*"
embedded-time = "*"
nb = "*"
riscv = "*"
