[package]
name = "hello_bench"
version = "0.1.0"
edition = "2021"
publish = false

[dependencies]
bytes = "=1.12.1"
futures = "=0.3.34"
http = "=1.5.0"
structopt = "=0.3.26"
tokio = { version = "=1.53.2", features = ["full"] }
tonic = "=0.14.6"
