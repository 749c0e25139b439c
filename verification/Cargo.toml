[package]
name = "wifi_station"
version = "0.1.0"
edition = "2021"
publish = false

[dependencies]
heapless = "0.8"
embedded-svc = { version = "0.27", default-features = false }
log = "0.4"
embassy-executor = { version = "0.5", features = ["nightly"] }
embassy-net = { version = "0.4", features = ["dhcpv4", "proto-ipv4", "medium-ethernet"] }
embassy-time = "0.3"
esp-wifi = { version = "0.3", features = ["esp32s3", "wifi", "embassy-net", "async"] }
esp32s3-hal = { version = "0.15", features = ["embassy", "async", "embassy-time-timg0", "embassy-executor-thread"] }
esp-alloc = "0.3"
esp-println = { version = "0.10", features = ["esp32s3", "log"] }
static_cell = { version = "2", features = ["nightly"] }
