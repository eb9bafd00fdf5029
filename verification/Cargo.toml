[package]
name = "stm32l0_tsc"
version = "0.1.0"
edition = "2021"
publish = false

[dependencies]
embedded-hal = { version = "0.2.7", features = ["unproven"] }
stm32l0 = { version = "0.15.1", features = ["stm32l0x3"] }
