[package]
name = "cbqn"
version = "0.1.0"
edition = "2021"
publish = false

[dependencies]
cbqn-sys = { version = "=0.8.0", default-features = false }
once_cell = "=1.21.4"
parking_lot = "=0.12.5"
thiserror = "=1.0.69"
