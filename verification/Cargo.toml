[package]
name = "sphinx_inv"
version = "0.3.1"
edition = "2021"
publish = false

[dependencies]
flate2 = "=1.1.10"
thiserror = "=2.0.21"
