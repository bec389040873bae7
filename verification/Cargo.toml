[package]
name = "ic_http_certification"
version = "0.1.0"
edition = "2021"
publish = false

[dependencies]
ic-certification = "*"
ic-representation-independent-hash = "*"
