[package]
name = "protocols"
version = "0.1.0"
edition = "2021"
publish = false

[dependencies]
crc16 = "0.4"
heapless = "0.7"
rp-pico = "0.7"
cortex-m = "0.7"
cortex-m-rt = "0.7"
embedded-hal = "0.2"
embedded-time = "0.12"
usb-device = "0.2"
usbd-serial = "0.1"
numtoa = "0.2"
const-random = "0.1"
serde = { version = "1", default-features = false, features = ["derive"] }
serde_repr = "0.1"
