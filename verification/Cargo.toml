[package]
name = "program_manager"
version = "0.1.0"
edition = "2021"
publish = false

[dependencies]
anyhow = "=1.0.104"
snarkvm-console = "=0.10.3"
snarkvm-synthesizer = "=0.10.3"
ureq = { version = "=2.12.1", features = ["json"] }
