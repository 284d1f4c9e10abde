[package]
name = "snoopy"
version = "0.1.0"
edition = "2021"
publish = false

[dependencies]
etherparse = "*"
serde = { version = "1", features = ["derive"] }
thiserror = "*"
tokio = { version = "1", features = ["macros", "net", "rt-multi-thread"] }
toml = "*"
tracing = "0.1"
tracing-subscriber = { version = "0.3", features = ["chrono"] }
tun = { version = "*", features = ["async"] }
