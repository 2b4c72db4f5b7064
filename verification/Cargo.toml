[package]
name = "legendary_update"
version = "0.1.0"
edition = "2021"
publish = false

[dependencies]
chrono = "0.4"
colored = "*"
ctrlc = "3"
sysinfo = "*"
whoami = "*"
