[package]
name = "sensor_node"
version = "0.1.0"
edition = "2021"
publish = false

[dependencies]
arrayvec = { version = "=0.7.8", default-features = false }
embassy-executor = "=0.5.1"
embassy-futures = "=0.1.2"
embassy-net = { version = "=0.4.0", features = ["tcp", "dhcpv4", "medium-ethernet", "proto-ipv4"] }
embassy-time = "=0.3.2"
embedded-hal = "=1.0.0"
embedded-hal-async = "=1.0.0"
embedded-svc = { version = "=0.27.1", default-features = false }
log = "=0.4.34"
static_cell = "=2.1.1"
