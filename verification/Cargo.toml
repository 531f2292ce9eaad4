[package]
name = "waypwr"
version = "0.1.0"
edition = "2021"
publish = false

[dependencies]
clap = { version = "4", features = ["derive"] }
directories = "6"
heck = "=0.5.0"
logind-zbus = "5"
miette = "7"
serde = { version = "1", features = ["derive"] }
smart-default = "0.7"
snafu = "0.8"
thiserror = "2"
tokio = { version = "1", features = ["process"] }
toml = "0.8"
tracing = "0.1"
tracing-subscriber = "0.3"
zbus = { version = "5", default-features = false, features = ["tokio"] }
