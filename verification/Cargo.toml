[package]
name = "ultrawm_core"
version = "0.1.0"
edition = "2021"
publish = false

[dependencies]
clap = { version = "4", features = ["derive"] }
colored = "*"
ctrlc = "3"
dirs = "*"
log = "0.4"
notify = "*"
once_cell = "1"
open = "*"
reqwest = { version = "0.12", default-features = false, features = ["json", "rustls-tls"] }
schemars = "1"
serde = { version = "1", features = ["derive"] }
serde_yaml = "0.9"
thiserror = "*"
tokio = { version = "1", features = ["rt-multi-thread", "sync", "time", "macros"] }
