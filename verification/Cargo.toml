[package]
name = "leak_monitor"
version = "0.1.0"
edition = "2021"
publish = false

[dependencies]
embedded-can = "=0.4.1"
embedded-graphics = "=0.8.2"
embedded-hal = "=1.0.0"
embedded-hal-bus = "=0.1.0"
embedded-sdmmc = "=0.7.0"
fugit = "=0.3.9"
critical-section = "=1.2.0"
rp2040-hal = "=0.10.2"
defmt = "=0.3.101"
lis3dh = "0.4"
