[package]
name = "pwm_driver"
version = "0.1.0"
edition = "2021"
publish = false

[dependencies]
tock-registers = "0.9"
cortex-m = "0.7"
