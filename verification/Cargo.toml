[package]
name = "log4rust"
version = "1.0.0"
edition = "2021"
publish = false

[dependencies]
chrono = "0.4"
colored = "2"
backtrace = "0.3"
lazy_static = "1"
ureq = "2"
