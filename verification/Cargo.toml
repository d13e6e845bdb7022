[package]
name = "nekofetch"
version = "0.1.0"
edition = "2021"
publish = false

[dependencies]
clap = "4"
colored = "2"
dirs = "5"
serde = { version = "1", features = ["derive"] }
serde_yml = "0.0"
sysinfo = "0.30"
whoami = "1"
