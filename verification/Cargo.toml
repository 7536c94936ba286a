[package]
name = "power_switch"
version = "0.1.0"
edition = "2021"
publish = false

[dependencies]
avr-device = { version = "=0.5.4", features = ["atmega328p"] }
embedded-hal = "=1.0.0"
nb = "=1.1.0"
ufmt = "=0.2.0"
