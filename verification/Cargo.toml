[package]
name = "sketchpad"
version = "0.1.0"
edition = "2021"
publish = false

[dependencies]
palette = "0.7"
image = "*"
camino = "1"
log = "0.4"
env_logger = "*"
error-iter = "*"
