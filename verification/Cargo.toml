[package]
name = "sandbox"
version = "0.1.0"
edition = "2021"
publish = false

[dependencies]
nix = { version = "0.29", features = ["mount", "sched", "process", "user", "signal", "fs"] }
caps = "0.5"
libc = "0.2"
libseccomp = "0.3"
