[package]
name = "usb_reattach"
version = "0.1.0"
edition = "2021"
publish = false

[dependencies]
clap = { version = "4", features = ["derive"] }
daemonizr = "*"
log = "0.4"
simple_logger = "*"
