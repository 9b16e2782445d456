[package]
name = "stream_consumer"
version = "0.1.0"
edition = "2021"
publish = false

[dependencies]
futures = "0.1"
log = "0.4"
rdkafka-sys = "*"
