[package]
name = "mysql_srv"
version = "0.1.0"
edition = "2021"
publish = false

[dependencies]
chrono = "0.4"
