[package]
name = "cycle_bench"
version = "0.1.0"
edition = "2021"
publish = false

[dependencies]
cortex-m = "0.7"
embedded-alloc = { version = "0.6", features = ["llff"] }
critical-section = { version = "1", features = ["std"] }
