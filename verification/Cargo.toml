[package]
name = "devlink_codec"
version = "0.1.0"
edition = "2021"
publish = false

[dependencies]
anyhow = "1"
netlink-packet-utils = "0.5"

[dev-dependencies]
byteorder = "1"
