[package]
name = "embive"
version = "0.1.0"
edition = "2021"
publish = false

[dependencies]
gdbstub = "0.7"
gdbstub_arch = "0.3"
