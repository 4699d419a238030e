[package]
name = "mqtt_client"
version = "0.1.0"
edition = "2021"
publish = false

[dependencies]
crossbeam-channel = "0.3"
futures = "0.1"
mqtt311 = "0.2"
