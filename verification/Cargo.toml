[package]
name = "ducklake"
version = "0.1.0"
edition = "2021"
publish = false

[dependencies]
secrecy = "=0.10.3"
snafu = "=0.8.9"
async-trait = "=0.1.92"
futures = "=0.3.34"
tracing = "=0.1.44"
arrow = { version = "59", default-features = false }
arrow-flight = { version = "59", default-features = false }
datafusion = { version = "55", default-features = false }
