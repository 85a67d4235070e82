[package]
name = "rmk"
version = "0.1.0"
edition = "2021"
publish = false

[dependencies]
bt-hci = "=0.10.1"
trouble-host = { version = "=0.8.0", features = ["security", "scan", "connection-params-update"] }
heapless = "=0.9.3"
embassy-time = { version = "=0.5.1", features = ["std"] }
embassy-futures = "=0.1.2"
embassy-sync = "=0.8.0"
embassy-executor = "=0.10.0"
embassy-usb = { version = "=0.6.0", default-features = false }
embassy-nrf = { version = "=0.11.0", features = ["nrf52840"] }
embedded-hal = "=1.0.0"
embedded-hal-async = "=1.0.0"
futures = "=0.3.34"
serde = { version = "=1.0.229", features = ["derive"] }
postcard = "=1.1.3"
usbd-hid = "=0.10.2"
