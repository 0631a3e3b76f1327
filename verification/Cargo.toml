[package]
name = "lumpcli"
version = "0.1.0"
edition = "2021"
publish = false

[dependencies]
cannyls = "=0.10.0"
cannyls_rpc = "=0.3.1"
fibers = "=0.1.13"
fibers_rpc = "=0.3.4"
futures = "=0.1.31"
clap = "=2.34.0"
