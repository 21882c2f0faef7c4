[package]
name = "descar_core"
version = "0.1.0"
edition = "2021"
publish = false

[dependencies]
logos = "=0.16.1"
regex = "=1.13.1"
console = "=0.15.11"
thiserror = "=2.0.21"
