[package]
name = "shipshape"
version = "0.1.0"
edition = "2021"
publish = false

[dependencies]
futures = "=0.3.34"
hyper = "=0.13.10"
hyper-socket = "=0.2.0"
