[package]
name = "asl"
version = "0.1.0"
edition = "2021"
publish = false

[dependencies]
syn = { version = "2", default-features = false, features = ["parsing"] }
parking_lot = "0.12"
log = "0.4"
