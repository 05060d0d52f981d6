[package]
name = "worktrunk"
version = "0.1.0"
edition = "2021"
publish = false

[dependencies]
anstyle = "1"
unicode-width = "*"
shell-escape = "0.1"
minijinja = "2"
shlex = "1"
serde = { version = "1", features = ["derive"] }
serde_json = "1"
clap = { version = "4", features = ["derive"] }
clap_complete = { version = "4", features = ["unstable-dynamic"] }
anyhow = "1"
etcetera = "*"
