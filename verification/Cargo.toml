[package]
name = "m5atom_auto_keyboard"
version = "0.1.0"
edition = "2021"
publish = false

[dependencies]
bytes = "*"
anyhow = "*"
log = "*"
once_cell = "*"
esp-idf-svc = "*"
usbd-hid = "*"
smart-leds-trait = "*"
ws2812-esp32-rmt-driver = "*"
