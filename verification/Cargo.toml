[package]
name = "blaze-rs"
version = "0.1.0"
edition = "2021"
publish = false

[dependencies]
async-trait = "0.1"
datafusion = { version = "6.0.0", default-features = false }
futures = "0.3"
jni = "0.19"
log = "0.4"
