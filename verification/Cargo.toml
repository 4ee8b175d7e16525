[package]
name = "transaction_builder"
version = "0.1.0"
edition = "2021"
publish = false

[dependencies]
libra-canonical-serialization = "=0.1.0"
mirai-annotations = "=1.12.0"
move-core-types = "=0.0.3"
