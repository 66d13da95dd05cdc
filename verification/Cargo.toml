[package]
name = "bootdisk"
version = "0.1.0"
edition = "2021"
publish = false

[dependencies]
fatfs = "0.3"
gpt = "*"
