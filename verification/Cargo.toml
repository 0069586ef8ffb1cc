[package]
name = "mem_size_of_integer"
version = "0.1.0"
edition = "2021"
publish = false
