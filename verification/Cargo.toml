[package]
name = "miette_printer"
version = "0.1.0"
edition = "2021"
publish = false

[dependencies]
atty = "0.2"
ci_info = "*"
once_cell = "1"
