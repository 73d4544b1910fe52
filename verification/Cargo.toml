[package]
name = "samd_dma"
version = "0.1.0"
edition = "2021"
publish = false

[dependencies]
cortex-m-rt = "0.6"
embedded-hal = "0.2"
