[package]
name = "presto"
version = "0.1.0"
edition = "2021"
publish = false

[dependencies]
byte-slice-cast = "*"
fixed = "*"
smart-leds = "*"
embassy-rp = { version = "*", features = ["rp235xb", "time-driver"] }
embassy-time = "*"
embassy-executor = "*"
embassy-sync = "*"
embassy-net = "*"
embassy-net-wiznet = "*"
cyw43 = "*"
cyw43-pio = "*"
pio = "*"
pio-proc = "*"
static_cell = "*"
