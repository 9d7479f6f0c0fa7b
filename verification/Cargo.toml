[package]
name = "lua_resty_protobuf"
version = "0.1.0"
edition = "2021"
publish = false

[dependencies]
bytes = "1"
opentelemetry-proto = { version = "*", default-features = false, features = ["gen-tonic-messages", "trace", "metrics", "logs"] }
prost = "*"
rand = "0.8"
