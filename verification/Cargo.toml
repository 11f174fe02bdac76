[package]
name = "cartoboost_py"
version = "0.1.0"
edition = "2021"
publish = false

[dependencies]
chrono = "0.4"
numpy = "0.26"
pyo3 = "0.26"
rayon = "1"
serde_json = "1"
