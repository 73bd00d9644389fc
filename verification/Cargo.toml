[package]
name = "factorial_udf"
version = "0.1.0"
edition = "2021"
publish = false

[dependencies]
arrow = "=59.3.0"
datafusion-common = "=55.1.0"
datafusion-expr = "=55.1.0"
