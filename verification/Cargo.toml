[package]
name = "mqtt_device"
version = "0.1.0"
edition = "2021"
publish = false

[dependencies]
bincode = "=1.3.3"
regex = "=1.13.1"
rumqttc = { version = "=0.25.1", default-features = false }
tokio = { version = "=1.54.1", features = ["rt-multi-thread", "sync", "macros", "net", "time"] }
