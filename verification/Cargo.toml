[package]
name = "state-history-forensic"
version = "0.2.2"
edition = "2021"
publish = false

[dependencies]
forensicnomicon-core = "*"
