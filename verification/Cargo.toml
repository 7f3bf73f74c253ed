[package]
name = "f303_hal"
version = "0.1.0"
edition = "2021"
publish = false

[dependencies]
cortex-m = "0.7"
stm32f3 = { version = "0.13", features = ["stm32f303"] }
