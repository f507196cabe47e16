[package]
name = "esp_gamepad"
version = "0.1.0"
edition = "2021"
publish = false

[dependencies]
anyhow = "*"
esp-idf-hal = "*"
esp-idf-sys = "*"
esp32-nimble = "*"
