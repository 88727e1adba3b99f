[package]
name = "silkrust"
version = "0.1.0"
edition = "2021"
publish = false

[dependencies]
blowfish = "=0.8.0"
cipher = "=0.3.0"
rand = "0.8"
tokio = { version = "1", features = ["net", "rt-multi-thread", "time", "macros", "io-util", "sync"] }
log = "0.4"
env_logger = "*"
queues = "*"
