[package]
name = "drip_net"
version = "0.1.0"
edition = "2021"
publish = false

[dependencies]
tokio = { version = "*", features = ["sync", "rt", "rt-multi-thread", "net", "time", "macros"] }
mdns-sd = "*"
local-ip-address = "*"
whoami = "*"
rand = "*"
