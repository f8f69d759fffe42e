[package]
name = "toodoux"
version = "0.1.0"
edition = "2021"
publish = false

[dependencies]
chrono = "0.4"
colored = "2"
structopt = "0.3"
