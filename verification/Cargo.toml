[package]
name = "rpc_transport"
version = "0.1.0"
edition = "2021"
publish = false

[dependencies]
futures = "0.3"
jsonrpc-server-utils = "18"
log = "0.4"
pin-project = "1"
tower = "0.4"
