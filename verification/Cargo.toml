[package]
name = "atsamd"
version = "0.1.0"
edition = "2021"
publish = false

[dependencies]
bare-metal = "=0.2.5"
cortex-m = "=0.7.10"
heapless = "=0.5.6"
nom = { version = "=6.2.2", default-features = false }
typenum = "=1.20.1"
vcell = "=0.1.3"
