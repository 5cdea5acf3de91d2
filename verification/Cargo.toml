[package]
name = "stm32l4_drivers"
version = "0.1.0"
edition = "2021"
publish = false

[dependencies]
bitfield = "0.13"
cortex-m = "0.7"
fugit = "0.3"
sdio-host = "*"
