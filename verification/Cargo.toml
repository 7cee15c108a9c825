[package]
name = "rustamath_physics"
version = "0.1.0"
edition = "2021"
publish = false

[dependencies]
rustamath_mks = "*"
rustamath_mnmz = "*"
