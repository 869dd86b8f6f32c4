[package]
name = "real_ai_core"
version = "0.1.0"
edition = "2021"
publish = false

[dependencies]
const_soft_float = "=0.1.4"
