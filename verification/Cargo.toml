[package]
name = "starterm"
version = "0.1.0"
edition = "2021"
publish = false

[dependencies]
bytes = "=1.12.1"
futures-util = { version = "=0.3.34", features = ["sink"] }
http = "=0.2.12"
hyper = "=0.14.32"
tracing = "=0.1.44"
