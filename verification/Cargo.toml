[package]
name = "gluesql_derive"
version = "0.1.0"
edition = "2021"
publish = false

[dependencies]
gluesql-core = "0.20"
chrono = "=0.4.45"
rust_decimal = "=1.43.0"
uuid = "=1.29.0"
bytes = "=1.12.1"
proc-macro2 = "=1.0.107"
quote = "=1.0.47"
syn = "=2.0.119"
darling = "=0.20.11"
thiserror = "=1.0.69"
