[package]
name = "fusegen"
version = "0.1.0"
edition = "2021"
publish = false

[dependencies]
random-string = "*"
syn = { version = "*", features = ["full"] }
quote = "*"
proc-macro2 = "*"
nix = "*"
thiserror = "*"
