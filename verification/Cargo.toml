[package]
name = "nscope"
version = "0.1.0"
edition = "2021"
publish = false

[dependencies]
hidapi = { version = "=2.6.7", default-features = false, features = ["linux-native-basic-udev"] }
rusb = "=0.9.4"
dfu-libusb = "=0.6.2"
log = "=0.4.34"
