[package]
name = "rust_ga"
version = "0.1.0"
edition = "2021"
publish = false

[dependencies]
rand = "0.8"
rayon = "1"
clap = { version = "4", features = ["derive"] }
anyhow = "1"
thiserror = "1"
strum = "0.25"
strum_macros = "0.25"
pyo3 = "0.19"
numpy = "0.19"
syn = { version = "2", features = ["full"] }
quote = "1"
proc-macro2 = "1"
ident_case_conversions = "*"
