[package]
name = "st7789_core"
version = "0.1.0"
edition = "2021"
publish = false

[dependencies]
cortex-m = "0.7"
embedded-hal = "0.2"
fugit = "0.3"
heapless = "0.7"
rp2040-hal = "0.8"
