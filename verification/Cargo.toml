[package]
name = "edera-check"
version = "0.2.22"
edition = "2021"
publish = false

[dependencies]
bytesize = "=2.7.0"
flate2 = "=1.1.10"
dmidecode = "=1.0.1"
procfs = "=0.18.0"
sysinfo = "=0.40.1"
console = "=0.16.6"
clap = { version = "=4.6.7", features = ["derive"] }
chrono = "=0.4.45"
tar = "=0.4.46"
tokio = { version = "=1.54.1", features = ["rt-multi-thread", "macros", "fs"] }
nix = { version = "=0.31.3", features = ["sched", "user"] }
anyhow = "=1.0.104"
env_logger = "=0.11.11"
log = "=0.4.35"
futures = "=0.3.34"
async-trait = "=0.1.92"
