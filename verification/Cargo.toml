[package]
name = "wio_firmware"
version = "0.1.0"
edition = "2021"
publish = false

[dependencies]
heapless = "=0.8.0"
embedded-sdmmc = "=0.3.0"
wio_terminal = "=0.7.3"
cortex-m = "=0.7.10"
embedded-graphics = "=0.7.1"
