[package]
name = "grib2_stream"
version = "0.1.0"
edition = "2021"
publish = false

[dependencies]
grib = { version = "=0.19.0", default-features = false }
