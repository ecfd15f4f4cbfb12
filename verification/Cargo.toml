[package]
name = "esp_cam_bindings"
version = "0.1.0"
edition = "2021"
publish = false

[dependencies]
esp-idf-sys = "*"
esp-idf-hal = "*"
