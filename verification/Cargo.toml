[package]
name = "weather_display"
version = "0.1.0"
edition = "2021"
publish = false

[dependencies]
heapless = "=0.8.0"
cyw43 = "*"
cyw43-pio = "*"
defmt-rtt = "*"
embassy-executor = "*"
embassy-net = "*"
embassy-rp = "*"
embassy-sync = "*"
embassy-time = "*"
embassy-usb-logger = "*"
embedded-hal-async = "*"
embedded-io-async = "*"
log = "*"
panic-probe = "*"
reqwless = "*"
static_cell = "*"
