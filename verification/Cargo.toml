[package]
name = "dml"
version = "0.1.0"
edition = "2021"
publish = false

[dependencies]
enumflags2 = "0.7"
