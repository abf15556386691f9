[package]
name = "rtos_bridge"
version = "0.1.0"
edition = "2021"
publish = false

[dependencies]
critical-section = "1"
