[package]
name = "plugin_host"
version = "0.1.0"
edition = "2021"
publish = false

[dependencies]
anyhow = "1"
deno_permissions = "=0.119.0"
regex = "=1.13.1"
typed-path = "=0.13.0"
