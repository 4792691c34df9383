[package]
name = "liten"
version = "0.1.0"
edition = "2021"
publish = false

[dependencies]
crossbeam-queue = "*"
io-uring = "*"
async-task = "*"
parking = "*"
polling = "*"
libc = "*"
thiserror = "*"
pin-project-lite = "*"
