[package]
name = "sok"
version = "0.1.0"
edition = "2021"
publish = false

[dependencies]
instant = "=0.1.13"
log = "=0.4.34"
env_logger = "=0.11.11"
parking_lot = "=0.12.5"
pollster = "=1.0.1"
winit = "=0.30.13"
wgpu = "=25.0.2"
