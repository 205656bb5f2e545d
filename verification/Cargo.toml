[package]
name = "artificial_horizon"
version = "0.1.0"
edition = "2021"
publish = false

[dependencies]
anyhow = "1"
display-interface-spi = "0.4"
embedded-graphics = "0.8"
embedded-hal = "0.2"
esp-idf-hal = "0.42"
libm = "0.2"
mipidsi = "0.5"
