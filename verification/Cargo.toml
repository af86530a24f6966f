[package]
name = "button_display"
version = "0.1.0"
edition = "2021"
publish = false

[dependencies]
display-interface-spi = "*"
embedded-graphics = "*"
esp-idf-hal = "*"
esp-idf-svc = "*"
esp-idf-sys = "*"
log = "*"
mipidsi = "*"
tinybmp = "*"
