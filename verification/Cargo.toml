[package]
name = "project_search"
version = "0.1.0"
edition = "2021"
publish = false

[dependencies]
globset = "*"
regex = "*"
resvg = "*"
futures = "*"
postage = "*"
