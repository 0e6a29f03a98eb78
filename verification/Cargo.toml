[package]
name = "solr_subquery"
version = "0.1.0"
edition = "2021"
publish = false

[dependencies]
url = "2"
form_urlencoded = "1"
pyo3 = "0.20"

[dev-dependencies]
urlencoding = "2"
