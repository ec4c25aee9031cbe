[package]
name = "ble_hci_codec"
version = "0.1.0"
edition = "2021"
publish = false

[dependencies]
byteorder = { version = "1", default-features = false }
bitflags = "1"
