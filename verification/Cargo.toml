[package]
name = "makeparallel"
version = "0.1.0"
edition = "2021"
publish = false

[dependencies]
crossbeam = "*"
dashmap = "*"
env_logger = "*"
log = "*"
parking_lot = "*"
rayon = "*"
sysinfo = "*"
thiserror = "*"
