[package]
name = "crc_check"
version = "0.1.0"
edition = "2021"
publish = false

[dependencies]
crc-any = "*"
stm32f0xx-hal = { version = "*", features = ["stm32f042"] }
cortex-m = "*"
cortex-m-rt = "*"
alloc-cortex-m = "*"
