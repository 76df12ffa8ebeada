[package]
name = "ppg_sensor"
version = "0.1.0"
edition = "2021"
publish = false

[dependencies]
cortex-m = "0.7"
embedded-graphics = "0.6"
embedded-hal = "0.2"
nrf52832-hal = "0.12"
st7789 = "0.2"
