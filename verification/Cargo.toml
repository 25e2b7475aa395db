[package]
name = "xsd_types"
version = "0.1.0"
edition = "2021"
publish = false

[dependencies]
num-bigint = "=0.4.8"
num-traits = "=0.2.19"
thiserror = "=1.0.69"
