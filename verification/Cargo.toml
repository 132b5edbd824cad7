[package]
name = "pipeline"
version = "0.1.0"
edition = "2021"
publish = false

[dependencies]
bytemuck = "1"
edgefirst-codec = { version = "0.38", default-features = false }
edgefirst-decoder = { version = "0.38", default-features = false }
edgefirst-image = { version = "0.38", default-features = false }
edgefirst-tensor = { version = "0.38", default-features = false }
half = "2"
thiserror = "2"
