[package]
name = "sbrain_cli"
version = "0.1.0"
edition = "2021"
publish = false

[dependencies]
sbrain = "=0.4.2"
clap = "=4.6.7"
