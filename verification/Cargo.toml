[package]
name = "drogue-microbit"
version = "0.1.0"
edition = "2021"
publish = false

[dependencies]
rubble = "*"
embedded-hal = "0.2"
nrf51-hal = "*"
cortex-m-rt = "0.6"
cortex-m-rtic = "0.5"
panic-halt = "0.2"
panic-semihosting = "0.5"
rtt-target = "*"
