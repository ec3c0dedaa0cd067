[package]
name = "ararext"
version = "0.1.0"
edition = "2021"
publish = false

[dependencies]
cortex-m = "0.6"
cortex-m-rt = "0.6"
embedded-hal = "0.2"
nb = "0.1"
panic-halt = "0.2"
stm32f4xx-hal = { version = "0.8", features = ["rt", "stm32f407"] }
