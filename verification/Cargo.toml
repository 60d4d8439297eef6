[package]
name = "mysqlpinger"
version = "0.1.0"
edition = "2021"
publish = false

[dependencies]
parse_duration = "*"
mysql = "*"
clap = "*"
ctrlc = "*"
env_logger = "*"
log = "*"
