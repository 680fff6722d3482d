[package]
name = "xous_services"
version = "0.1.0"
edition = "2021"
publish = false

[dependencies]
xous = "=0.9.71"
xous-ipc = "=0.10.11"
xous-api-names = "=0.9.72"
xous-api-susres = "=0.9.69"
xous-api-ticktimer = "=0.9.71"
xous-api-log = "=0.1.70"
utralib = "=0.1.27"
log = "=0.4.35"
num-traits = "=0.2.19"
num-derive = "=0.4.2"
rkyv = "=0.8.18"
usbd-human-interface-device = "=0.6.1"
embedded-time = "=0.12.1"

[dev-dependencies]
rand_chacha = "=0.3.1"
