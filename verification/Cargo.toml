[package]
name = "cmd_harness"
version = "0.1.0"
edition = "2021"
publish = false
