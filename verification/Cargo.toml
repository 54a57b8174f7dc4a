[package]
name = "chessrs"
version = "0.1.0"
edition = "2021"
publish = false

[dependencies]
bit-set = "0.5"
cgmath = "0.16"
glium = "0.25"
time = "0.1"
