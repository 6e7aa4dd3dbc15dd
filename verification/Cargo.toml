[package]
name = "hamerkop"
version = "0.1.0"
edition = "2021"
publish = false

[dependencies]
fxhash = "=0.2.1"
libc = "=0.2.191"
cooked-waker = "=5.0.0"
proc-macro2 = "1"
quote = "1"
syn = "1"
