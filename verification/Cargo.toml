[package]
name = "shvlogin"
version = "0.1.0"
edition = "2021"
publish = false

[dependencies]
async-std = "1"
percent-encoding = "2"
url = "2"
