[package]
name = "ms2rescore_rs"
version = "0.1.0"
edition = "2021"
publish = false

[dependencies]
mzdata = { version = "=0.67.3", default-features = false, features = ["mgf", "mzml", "miniz_oxide"] }
timsrust = "=0.6.6"
