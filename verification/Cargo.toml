[package]
name = "init_project"
version = "2.1.0"
edition = "2021"
publish = false

[dependencies]
clap = "4"
