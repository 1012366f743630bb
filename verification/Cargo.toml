[package]
name = "svg_dump"
version = "0.1.0"
edition = "2021"
publish = false

[dependencies]
allsorts = { version = "=0.17.0", default-features = false, features = ["flate2_rust"] }
flate2 = "=1.1.10"
sha2 = "=0.10.9"
