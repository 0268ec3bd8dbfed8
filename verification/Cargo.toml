[package]
name = "cooler_telemetry"
version = "0.1.0"
edition = "2021"
publish = false

[dependencies]
byteorder = "1"
rusb = "0.9"
