[package]
name = "spot_remote"
version = "0.1.0"
edition = "2021"
publish = false

[dependencies]
percent-encoding = "=2.3.2"
tokio = { version = "=1.53.2", features = ["net", "sync", "io-util", "rt-multi-thread", "macros"] }
rspotify = "=0.16.1"
librespot-core = "=0.7.1"
chrono = "=0.4.45"
log = "=0.4.34"
libc = "=0.2.190"
