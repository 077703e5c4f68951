[package]
name = "arsync"
version = "0.1.0"
edition = "2021"
publish = false

[dependencies]
anyhow = "=1.0.104"
async-trait = "=0.1.92"
clap = { version = "=4.6.7", features = ["derive"] }
compio = { version = "=0.19.2", features = ["fs", "dispatcher", "macros", "runtime"] }
filetime = "=0.2.29"
fluent = "=0.16.1"
futures = "=0.3.34"
indicatif = "=0.17.11"
libc = "=0.2.191"
md5 = "=0.7.0"
nix = { version = "=0.31.3", features = ["fs", "user"] }
num_cpus = "=1.17.0"
rand = "=0.8.8"
thiserror = "=1.0.69"
tokio = { version = "=1.54.1", features = ["fs", "io-util", "rt", "macros"] }
tracing = "=0.1.44"
tracing-subscriber = "=0.3.23"
unic-langid = "=0.9.6"
