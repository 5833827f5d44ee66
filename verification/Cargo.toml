[package]
name = "jira-at-home"
version = "0.1.0"
edition = "2021"
publish = false

[dependencies]
clap = { version = "=4.6.7", features = ["derive"] }
dirs = "=6.0.0"
libmcp = "=2.2.2"
libmcp-derive = ">=2.1.0, <2.3.0"
serde = { version = "=1.0.229", features = ["derive"] }
serde_json = "=1.0.154"
thiserror = "=2.0.21"
time = { version = "=0.3.55", features = ["formatting", "parsing", "serde"] }
