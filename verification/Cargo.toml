[package]
name = "usb_host"
version = "0.1.0"
edition = "2021"
publish = false

[dependencies]
xhci = "*"
async-lock = "*"
async-ringbuf = "*"
ringbuf = "*"
embassy-futures = "*"
futures = "*"
log = "*"
num-traits = "*"
num-derive = "*"
nosy = "*"
squeak = "*"
usb-descriptor-decoder = "*"
dynamic_join_array = "*"
