[package]
name = "round_display"
version = "0.1.0"
edition = "2021"
publish = false

[dependencies]
anyhow = "1"
arrayvec = "0.7"
cst816s = "*"
embedded-graphics = "0.8"
esp-idf-hal = "*"
esp-idf-svc = "*"
gc9a01-rs = "*"
log = "0.4"
lvgl = "*"
shared-bus = { version = "0.3", features = ["std"] }
