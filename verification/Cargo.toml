[package]
name = "netioapi"
version = "0.1.0"
edition = "2021"
publish = false

[dependencies]
winapi = { version = "0.3", features = ["ifdef", "minwindef", "netioapi", "ntdef", "winerror", "ws2def"] }
