[package]
name = "cfdns"
version = "0.1.0"
edition = "2021"
publish = false

[dependencies]
addr = "=0.15.6"
clap = { version = "=4.6.7", features = ["derive"] }
colored = "=3.1.1"
directories = "=6.0.0"
futures = "=0.3.34"
indicatif = "=0.18.6"
inquire = { version = "=0.9.4", features = ["editor"] }
miette = "=7.6.0"
reqwest = { version = "=0.13.5", default-features = false }
rtnetlink = "=0.23.0"
serde = { version = "=1.0.229", features = ["derive"] }
serde_json = "=1.0.151"
serde_yaml = "=0.9.34"
thiserror = "=2.0.21"
tokio = { version = "=1.53.2", features = ["macros", "rt-multi-thread", "sync"] }
tracing = "=0.1.44"
tracing-subscriber = "=0.3.23"
