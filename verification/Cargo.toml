[package]
name = "crossbundle"
version = "0.1.0"
edition = "2021"
publish = false

[dependencies]
walkdir = "2"
ureq = "2"
home = "0.5"
dirs = "5"
colored = "2"
log = "0.4"
pretty_env_logger = "0.5"
