[package]
name = "lora_gps"
version = "0.1.0"
edition = "2021"
publish = false

[dependencies]
heapless = "=0.9.3"
nb = "=1.1.0"
radio = "=0.12.1"
embedded-hal = "=1.0.0"
embedded-graphics = "0.8"
