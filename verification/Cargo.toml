[package]
name = "scaffed"
version = "0.1.0"
edition = "2021"

[dependencies]
promkit = "=0.8.0"
