[package]
name = "deno_loader"
version = "0.1.0"
edition = "2021"
publish = false

[dependencies]
url = "*"
deno_semver = "*"
deno_path_util = "*"
