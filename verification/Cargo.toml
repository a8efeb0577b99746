[package]
name = "sysmon"
version = "0.4.0"
edition = "2021"
publish = false

[dependencies]
clap = { version = "*", features = ["derive"] }
colored = "*"
ctrlc = "*"
sysinfo = "*"
