[package]
name = "system_monitor"
version = "0.1.0"
edition = "2021"
publish = false

[dependencies]
im = "15"
druid = "0.8"
nvml-wrapper = "*"
sysinfo = "*"
