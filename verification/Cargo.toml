[package]
name = "open_dp100"
version = "0.1.0"
edition = "2021"
publish = false

[dependencies]
crc16 = "=0.4.0"
hidapi = { version = "=2.6.7", default-features = false, features = ["linux-native-basic-udev"] }
clap = "=4.6.7"
rusb = "=0.9.4"
