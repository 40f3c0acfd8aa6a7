[package]
name = "nih_plug_auv2"
version = "0.1.0"
edition = "2021"
publish = false

[dependencies]
atomic_refcell = "0.1"
core-foundation = { version = "0.9", default-features = false }
crossbeam = "0.8"
objc = "0.2"
parking_lot = "0.12"
