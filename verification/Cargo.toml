[package]
name = "maremma"
version = "0.1.0"
edition = "2021"
publish = false

[dependencies]
chrono = "=0.4.45"
croner = "=2.2.0"
uuid = { version = "=1.29.0", features = ["v4"] }
rand = "=0.8.8"
sha256 = { version = "=1.6.0", default-features = false }
num_cpus = "=1.17.0"
serde = { version = "=1.0.229", features = ["derive"] }
serde_json = "=1.0.154"
reqwest = { version = "=0.12.28", default-features = false }
clap = { version = "=4.6.7", features = ["derive"] }
tokio = { version = "1", features = ["macros", "rt-multi-thread", "process", "time", "net"] }
which = "*"
surge-ping = "*"
