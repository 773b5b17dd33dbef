[package]
name = "exercises"
version = "0.1.0"
edition = "2021"
publish = false

[dependencies]
anyhow = "1"
crossbeam = "0.8"
env_logger = "0.10"
log = "0.4"
rand = "0.8"
rusty_engine = "5"
thiserror = "1"
