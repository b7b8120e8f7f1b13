[package]
name = "tictactoe"
version = "0.1.0"
edition = "2021"
publish = false

[dependencies]
alloy-sol-types = "=0.8.20"
ruint = "=1.16.0"
stylus-sdk = "=0.8.4"
