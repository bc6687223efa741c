[package]
name = "keyboard_hal"
version = "0.1.0"
edition = "2021"
publish = false

[dependencies]
usb-device = "0.3"
usbd-hid = "0.8"
