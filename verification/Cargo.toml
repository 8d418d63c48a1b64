[package]
name = "risc0_zkvm"
version = "0.20.1"
edition = "2021"
publish = false

[dependencies]
anyhow = "=1.0.104"
bytes = "=1.12.1"
risc0-binfmt = "=0.20.1"
risc0-zkp = { version = "=0.20.1", features = ["std"] }
risc0-zkvm-platform = "=0.20.1"
semver = "=1.0.28"
sha2 = "=0.10.9"
