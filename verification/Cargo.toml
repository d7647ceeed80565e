[package]
name = "hostbridge"
version = "0.1.0"
edition = "2021"
publish = false

[dependencies]
futures = "0.3"
stdweb = "0.4"
