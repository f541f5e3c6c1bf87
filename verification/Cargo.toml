[package]
name = "pcr_select"
version = "0.1.0"
edition = "2021"

[dependencies]
enumflags2 = "0.6.4"
log = "0.4"
num-derive = "0.3"
num-traits = "0.2"
