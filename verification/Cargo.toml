[package]
name = "cohort_sim"
version = "0.1.0"
edition = "2021"
publish = false

[dependencies]
crossbeam = "*"
rand = "*"
serde_json = "*"
