[package]
name = "stm32f103xx_hal"
version = "0.1.0"
edition = "2021"
publish = false

[dependencies]
cortex-m = "0.5"
embedded-hal = { version = "0.2", features = ["unproven"] }
stm32f103xx = "0.11"
