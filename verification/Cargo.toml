[package]
name = "loco_gen"
version = "0.1.0"
edition = "2021"
publish = false

[dependencies]
chrono = "0.4"
duct = "*"
heck = "0.5"
rrgen = "*"
serde_json = "1"
tracing = "0.1"
