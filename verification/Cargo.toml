[package]
name = "fan_controller"
version = "0.1.0"
edition = "2021"
publish = false

[dependencies]
assign-resources = "*"
bounded-integer = { version = "*", features = ["types"] }
defmt = "*"
defmt-rtt = "*"
embassy-executor = "*"
embassy-rp = "*"
embassy-time = "*"
embedded-io-async = "*"
emc2101 = "*"
fugit = "*"
panic-probe = "*"
smart-leds = "*"
static_cell = "*"
