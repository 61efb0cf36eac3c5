[package]
name = "vc_thread_link"
version = "0.1.0"
edition = "2021"
publish = false

[dependencies]
anyhow = "1"
log = "0.4"
serenity = "0.11"
