[package]
name = "substrate_course"
version = "0.1.0"
edition = "2021"
publish = false

[dependencies]
parity-scale-codec = "=3.7.5"
sp-io = "=49.0.0"
