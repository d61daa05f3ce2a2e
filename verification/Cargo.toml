[package]
name = "elastic_conn"
version = "0.1.0"
edition = "2021"
publish = false

[dependencies]
crossbeam = "*"
rotor-http = "*"
