[package]
name = "lora_driver"
version = "0.1.0"
edition = "2021"
publish = false

[dependencies]
lorawan-device = { version = "=0.7.1", default-features = false }
lorawan-encoding = { version = "=0.6.2", default-features = false }
lorawan = { version = "=0.7.1", default-features = false, features = ["default-crypto"] }
embedded-hal = "=0.2.7"
heapless = "=0.7.17"
log = "=0.4.34"
