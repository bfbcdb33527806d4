[package]
name = "wifi_bringup"
version = "0.1.0"
edition = "2021"
publish = false

[dependencies]
smoltcp = "=0.10.0"
embedded-nal = "=0.6.0"
embedded-io = "=0.6.1"
embedded-svc = "=0.26.4"
esp-wifi = "=0.1.1"
esp32s3-hal = "=0.13.0"
esp-println = "=0.18.0"
esp-backtrace = "=0.20.0"
