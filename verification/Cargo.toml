[package]
name = "azure_ost_cli"
version = "0.1.0"
edition = "2021"
publish = false

[dependencies]
clap = "2"
human-panic = "1"
indicatif = "0.11"
num_cpus = "1"
