[package]
name = "impedance"
version = "0.1.0"
edition = "2021"
publish = false

[dependencies]
once_cell = "1"
parking_lot = "0.12"
rayon = "1"
tokio = { version = "1", features = ["rt", "rt-multi-thread", "sync", "time"] }
