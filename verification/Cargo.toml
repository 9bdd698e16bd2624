[package]
name = "hello_service"
version = "0.1.0"
edition = "2021"
publish = false

[dependencies]
actix-web = "4"
