[package]
name = "bt-hci-darwin"
version = "0.1.0"
edition = "2021"
publish = false

[dependencies]
bt-hci = "=0.11.0"
embedded-io = "=0.7.1"
embedded-io-async = "=0.7.0"
hash32 = "=0.3.1"
heapless = "=0.8.0"
hidapi = "=2.6.7"
tokio = { version = "=1.54.1", features = ["rt", "sync", "time"] }
