[package]
name = "polkadot"
version = "0.1.0"
edition = "2021"
publish = false

[dependencies]
cpu-time = "=1.0.0"
libc = "=0.2.191"
tokio = { version = "=1.54.1", default-features = false, features = ["fs", "io-util", "net", "rt"] }

[dev-dependencies]
parity-scale-codec = "=3.7.5"
