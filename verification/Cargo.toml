[package]
name = "trmnl_core"
version = "0.1.0"
edition = "2021"
publish = false

[dependencies]
anyhow = "*"
esp-idf-svc = "*"
heapless = "*"
log = "*"
