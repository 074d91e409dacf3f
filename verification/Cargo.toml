[package]
name = "carrot_script"
version = "0.1.0"
edition = "2021"
publish = false

[dependencies]
ckb-std = "=1.1.0"

[dev-dependencies]
ckb-std = { version = "=1.1.0", features = ["stub-syscalls"] }
