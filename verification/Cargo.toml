[package]
name = "gpu_dashboard"
version = "0.1.0"
edition = "2021"
publish = false

[dependencies]
crossterm = "0.28"
nvml-wrapper = "0.10"
ratatui = "0.29"
