[package]
name = "stackwalk"
version = "0.1.0"
edition = "2021"
publish = false

[dependencies]
gimli = "0.31"
macho-unwind-info = "0.5"
fallible-iterator = "0.3"
