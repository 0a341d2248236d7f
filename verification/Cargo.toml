[package]
name = "kiro_generator"
version = "0.1.0"
edition = "2021"
publish = false

[dependencies]
clap = { version = "=4.6.7", features = ["derive", "cargo"] }
color-eyre = "=0.6.5"
colored = "=3.1.1"
dirs = "=7.0.0"
emojis-rs = "=0.1.3"
facet = "=0.42.0"
facet-kdl = "=0.42.0"
jsonschema = { version = "=0.60.1", default-features = false }
miette = { version = "=7.6.0", features = ["fancy"] }
serde = { version = "=1.0.229", features = ["derive"] }
serde_json = "=1.0.154"
serde_yml = "=0.0.13"
super-table = "=1.1.1"
tokio = { version = "=1.54.1", features = ["macros", "rt-multi-thread", "fs"] }
toml = "=1.1.8"
tracing = "=0.1.44"
tracing-error = "=0.2.1"
tracing-subscriber = { version = "=0.3.23", features = ["env-filter"] }
