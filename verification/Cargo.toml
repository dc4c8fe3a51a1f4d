[package]
name = "knx_pico"
version = "0.1.0"
edition = "2021"
publish = false

[dependencies]
heapless = "0.9"
embassy-net = { version = "*", features = ["udp", "proto-ipv4", "medium-ethernet", "dhcpv4"] }
embassy-time = "*"
embassy-executor = "*"
embassy-sync = "*"
embassy-rp = "*"
cyw43 = "*"
cyw43-pio = "*"
static_cell = "*"
defmt = "*"
defmt-rtt = "*"
log = "*"
panic-persist = "*"
embassy-usb-logger = "*"
