[package]
name = "fly"
version = "0.1.0"
edition = "2021"
publish = false

[dependencies]
rcgen = { version = "=0.14.10", features = ["x509-parser"] }
ring = "=0.17.14"
dirs = "=7.0.0"

[dev-dependencies]
x509-parser = { version = "=0.18.1", features = ["verify"] }
fs-err = "=3.3.2"
nix = { version = "=0.31.3", features = ["fs"] }
