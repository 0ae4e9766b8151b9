[package]
name = "riscv"
version = "0.1.0"
edition = "2021"
publish = false

[dependencies]
clear-cache = "*"
dotenv = "*"
env_logger = "*"
libc = "*"
log = "*"
