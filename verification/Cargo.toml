[package]
name = "nsproxy"
version = "0.1.0"
edition = "2021"
publish = false

[dependencies]
nix = { version = "0.26", features = ["mount", "sched", "socket", "fs", "dir", "user", "process", "signal", "net"] }
proc-mounts = "*"
capctl = "*"
passfd = "*"
tun = "0.6"
libc = "*"
uzers = "*"
