[package]
name = "pros"
version = "0.1.0"
edition = "2021"
publish = false

[dependencies]
hashbrown = "*"
spin = "*"
smart-leds-trait = "*"
async-trait = "*"
