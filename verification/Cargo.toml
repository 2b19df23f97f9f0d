[package]
name = "gamepad_bridge"
version = "0.1.0"
edition = "2021"
publish = false

[dependencies]
ctrlc = "*"
flume = "*"
hidapi = "*"
termion = "*"
version = "*"
psutil = "*"
