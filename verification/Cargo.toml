[package]
name = "ticklog"
version = "0.1.0"
edition = "2021"
publish = false

[dependencies]
log = "=0.4.34"
mips-rt = "=0.3.7"
