[package]
name = "fault_domains"
version = "0.1.0"
edition = "2021"
publish = false

[dependencies]
log = "=0.4.34"
