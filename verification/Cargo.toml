[package]
name = "portscope"
version = "0.1.0"
edition = "2021"

[dependencies]
netstat2 = "*"
sysinfo = "*"
