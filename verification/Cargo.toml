[package]
name = "aufseher"
version = "0.1.0"
edition = "2021"
publish = false

[dependencies]
fancy-regex = "=0.19.2"
serde_json = "=1.0.151"
anyhow = "*"
clap = { version = "=4.6.7", features = ["derive", "env"] }
serde = { version = "*", features = ["derive"] }
serde_yaml = "=0.9.34"
teloxide = "=0.17.0"
tokio = { version = "=1.53.2", features = ["rt-multi-thread", "macros", "time"] }
reqwest = { version = "*", features = ["json"] }
tracing = "*"
tracing-subscriber = "*"
dptree = "*"
# Transitive dependency of teloxide, pinned because 0.1.2 asks for a newer
# rustc than the toolchain used here.
takecell = "=0.1.1"
