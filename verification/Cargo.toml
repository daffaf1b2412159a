[package]
name = "pcap-async"
version = "0.1.0"
edition = "2021"
publish = false

[dependencies]
byteorder = "1"
failure = "0.1"
futures = "0.3"
log = "0.4"
pcap-sys = "*"
pin-project = "1"
tokio = { version = "1", features = ["rt"] }
