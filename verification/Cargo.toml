[package]
name = "sn_node_manager"
version = "0.1.0"
edition = "2021"
publish = false

[dependencies]
service-manager = "*"
libp2p = { version = "*", default-features = false }
