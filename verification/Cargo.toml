[package]
name = "chimie"
version = "0.1.0"
edition = "2021"
publish = false

[dependencies]
argon2 = { version = "=0.5.3", features = ["std"] }
uuid = { version = "=1.29.1", features = ["v7"] }
jiff = "=0.2.43"
actix-web = "=4.18.1"
actix-files = "=0.7.3"
actix-multipart = "=0.8.5"
actix-ws = "=0.4.0"
tokio = { version = "=1.54.1", features = ["sync", "rt", "macros", "time"] }
fjall = "=3.1.13"
fiole = "=0.1.1"
facet = { version = "=0.46.5", features = ["uuid", "jiff02"] }
facet-json = "=0.46.1"
figue = "=4.0.5"
env_logger = "=0.11.11"
include_dir = "=0.7.4"
futures-util = "=0.3.34"
thiserror = "=2.0.21"
smart-default = "=0.7.1"
structstruck = "=0.5.1"
