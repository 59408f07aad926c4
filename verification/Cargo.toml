[package]
name = "rdf_types"
version = "0.1.0"
edition = "2021"
publish = false

[dependencies]
iref = "*"
langtag = "*"
uuid = { version = "*", features = ["v3", "v4", "v5"] }
