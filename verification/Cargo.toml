[package]
name = "curvegen"
version = "0.1.0"
edition = "2021"
publish = false

[dependencies]
peroxide = { version = "=0.43.1", features = ["parquet"] }
rayon = "=1.12.0"
