[package]
name = "realearn_core"
version = "0.1.0"
edition = "2021"
publish = false

[dependencies]
crossbeam-channel = "*"
helgoboss-midi = "*"
vst = "*"
