[package]
name = "imageflow_node"
version = "0.1.0"
edition = "2021"
publish = false

[dependencies]
nodejs-sys = "=0.15.0"
threadpool = "=1.8.1"
