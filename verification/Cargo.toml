[package]
name = "grepnir"
version = "0.1.0"
edition = "2021"
publish = false

[dependencies]
regex = "*"
clap = "*"
termcolor = "*"
walkdir = "*"
